//! The plain per-creep logic: keep, drop or pick a target, and order one
//! upgrade, harvest or move per tick, without fallbacks.
//!
//! As in `crate::creep`, the caller performs each action on the game and
//! reports back, until `run_creep` returns `Finish`.
use vstd::prelude::*;
use crate::creep::UpgradeOutcome;
use crate::position::{Pos, near, pos_is_near_to};
use crate::table::TargetTable;

verus! {

/// What a creep is sent to do; the game objects are held by their object id
/// in packed form.
#[derive(Clone, Copy, Debug, PartialEq, Eq, Structural)]
pub enum CreepTarget {
    /// Upgrade the room controller with this id.
    Upgrade(u128),
    /// Harvest energy from the source with this id.
    Harvest(u128),
}

/// What the creep's store and position say at the start of the tick.
#[derive(Clone, Copy, Debug)]
pub struct LogicStatus {
    /// Energy that the creep carries.
    pub energy_used: u32,
    /// Room left for energy in the creep's store.
    pub energy_free: i32,
    /// Where the creep stands.
    pub pos: Pos,
}

/// What the caller reports back after each action.
#[derive(Clone, Copy, Debug)]
pub enum LogicEvent {
    /// The creep's state, read at the start.
    Status(LogicStatus),
    /// Where the object behind an id is, if it still exists.
    Resolved(Option<Pos>),
    /// The answer to an upgrade order.
    Upgraded(UpgradeOutcome),
    /// Whether a harvest order was accepted.
    Harvested(bool),
    /// The id of the first object that a room search found, if any.
    Found(Option<u128>),
    /// An order whose answer does not matter was given.
    Acted,
}

/// What the caller is asked to do next.
#[derive(Clone, Copy, Debug, PartialEq, Eq, Structural)]
pub enum LogicAction {
    /// Look up the controller with this id; answer with `Resolved`.
    ResolveController(u128),
    /// Look up the source with this id; answer with `Resolved`.
    ResolveSource(u128),
    /// Order the creep to upgrade this controller; answer with `Upgraded`.
    UpgradeController(u128),
    /// Order the creep to harvest this source; answer with `Harvested`.
    HarvestSource(u128),
    /// Order a path-finding move to this position; answer with `Acted`.
    MoveTo(Pos),
    /// Find the first controller among the structures of the creep's room
    /// (the room must exist); answer with `Found`.
    FindController,
    /// Find the first active source of the creep's room (the room must
    /// exist); answer with `Found`.
    FindActiveSource,
    /// The tick's work for this creep is over.
    Finish,
}

/// Where the creep's tick stands.
#[derive(Clone, Copy, Debug)]
pub enum LogicPhase {
    /// Waiting for the creep's state.
    AwaitStatus,
    /// Waiting for the kept controller to be looked up.
    AwaitController(u128),
    /// Waiting for the kept source to be looked up.
    AwaitSource(LogicStatus, u128),
    /// Waiting for the answer to an upgrade of the controller at this position.
    AwaitUpgrade(Pos),
    /// Waiting for the answer to a harvest.
    AwaitHarvest,
    /// Waiting for a move order to be given.
    AwaitMoveTo,
    /// Waiting for a controller search.
    AwaitControllerSearch,
    /// Waiting for an active source search.
    AwaitSourceSearch,
    /// Nothing is left to do.
    Done,
}

/// One decision of a creep's tick, over the target table's view: the table
/// after it, the next phase, and the next action.
pub open spec fn creep_logic_step(
    targets: Map<Seq<char>, CreepTarget>,
    name: Seq<char>,
    phase: LogicPhase,
    event: LogicEvent,
) -> (Map<Seq<char>, CreepTarget>, LogicPhase, LogicAction) {
    let finish = (targets, LogicPhase::Done, LogicAction::Finish);
    let drop_target = (targets.remove(name), LogicPhase::Done, LogicAction::Finish);
    match phase {
        LogicPhase::AwaitStatus => match event {
            LogicEvent::Status(s) => {
                if targets.dom().contains(name) {
                    match targets[name] {
                        CreepTarget::Upgrade(k) => if s.energy_used > 0 {
                            (targets, LogicPhase::AwaitController(k), LogicAction::ResolveController(k))
                        } else {
                            drop_target
                        },
                        CreepTarget::Harvest(k) => if s.energy_free > 0 {
                            (targets, LogicPhase::AwaitSource(s, k), LogicAction::ResolveSource(k))
                        } else {
                            drop_target
                        },
                    }
                } else if s.energy_used > 0 {
                    (targets, LogicPhase::AwaitControllerSearch, LogicAction::FindController)
                } else {
                    (targets, LogicPhase::AwaitSourceSearch, LogicAction::FindActiveSource)
                }
            },
            _ => finish,
        },
        LogicPhase::AwaitController(k) => match event {
            LogicEvent::Resolved(Some(p)) => (
                targets,
                LogicPhase::AwaitUpgrade(p),
                LogicAction::UpgradeController(k),
            ),
            LogicEvent::Resolved(None) => drop_target,
            _ => finish,
        },
        LogicPhase::AwaitUpgrade(p) => match event {
            LogicEvent::Upgraded(UpgradeOutcome::Upgraded) => finish,
            LogicEvent::Upgraded(UpgradeOutcome::NotInRange) => (
                targets,
                LogicPhase::AwaitMoveTo,
                LogicAction::MoveTo(p),
            ),
            LogicEvent::Upgraded(UpgradeOutcome::Failed) => drop_target,
            _ => finish,
        },
        LogicPhase::AwaitSource(s, k) => match event {
            LogicEvent::Resolved(Some(p)) => if near(s.pos@, p@) {
                (targets, LogicPhase::AwaitHarvest, LogicAction::HarvestSource(k))
            } else {
                (targets, LogicPhase::AwaitMoveTo, LogicAction::MoveTo(p))
            },
            _ => finish,
        },
        LogicPhase::AwaitHarvest => match event {
            LogicEvent::Harvested(true) => finish,
            LogicEvent::Harvested(false) => drop_target,
            _ => finish,
        },
        LogicPhase::AwaitControllerSearch => match event {
            LogicEvent::Found(Some(k)) => (
                targets.insert(name, CreepTarget::Upgrade(k)),
                LogicPhase::Done,
                LogicAction::Finish,
            ),
            _ => finish,
        },
        LogicPhase::AwaitSourceSearch => match event {
            LogicEvent::Found(Some(k)) => (
                targets.insert(name, CreepTarget::Harvest(k)),
                LogicPhase::Done,
                LogicAction::Finish,
            ),
            _ => finish,
        },
        _ => finish,
    }
}

/// Order of the phases: a decision that does not finish always moves to a
/// phase of lower rank, so a tick ends after at most three actions.
pub open spec fn logic_phase_rank(phase: LogicPhase) -> int {
    match phase {
        LogicPhase::AwaitStatus => 3,
        LogicPhase::AwaitController(_) => 2,
        LogicPhase::AwaitSource(_, _) => 2,
        LogicPhase::AwaitControllerSearch => 2,
        LogicPhase::AwaitSourceSearch => 2,
        LogicPhase::AwaitUpgrade(_) => 1,
        LogicPhase::AwaitHarvest => 1,
        LogicPhase::AwaitMoveTo => 0,
        LogicPhase::Done => 0,
    }
}

/// A creep's tick changes no other creep's entry in the table.
pub proof fn law_creep_logic_touches_own_entry_only(
    targets: Map<Seq<char>, CreepTarget>,
    name: Seq<char>,
    phase: LogicPhase,
    event: LogicEvent,
)
    ensures
        creep_logic_step(targets, name, phase, event).0.remove(name) =~= targets.remove(name),
{
}

/// Every decision either finishes, in phase `Done`, or lowers the phase's
/// rank (a move order leads to a phase that finishes on any answer): a tick
/// always ends.
pub proof fn law_creep_logic_progress(
    targets: Map<Seq<char>, CreepTarget>,
    name: Seq<char>,
    phase: LogicPhase,
    event: LogicEvent,
)
    ensures
        ({
            let (_, next, action) = creep_logic_step(targets, name, phase, event);
            (action is Finish && next is Done) || (action is MoveTo && next is AwaitMoveTo) || (
            !(action is Finish) && logic_phase_rank(next) < logic_phase_rank(phase))
        }),
        phase is AwaitMoveTo ==> creep_logic_step(targets, name, phase, event).2 is Finish,
{
}

/// A target is kept only while the creep can work on it: an upgrade target
/// while it carries energy, a harvest target while it has room for energy;
/// otherwise the first decision drops it.
pub proof fn law_logic_target_kept_while_workable(
    targets: Map<Seq<char>, CreepTarget>,
    name: Seq<char>,
    status: LogicStatus,
)
    requires
        targets.dom().contains(name),
    ensures
        ({
            let (after, _, _) = creep_logic_step(
                targets,
                name,
                LogicPhase::AwaitStatus,
                LogicEvent::Status(status),
            );
            let workable = match targets[name] {
                CreepTarget::Upgrade(_) => status.energy_used > 0,
                CreepTarget::Harvest(_) => status.energy_free > 0,
            };
            (workable ==> after == targets) && (!workable ==> after == targets.remove(name))
        }),
{
}

/// A creep without a target can be given one in its tick, and then it is an
/// upgrade target if the creep carries energy, a harvest target if not.
pub proof fn law_logic_new_target_follows_energy(
    targets: Map<Seq<char>, CreepTarget>,
    name: Seq<char>,
    status: LogicStatus,
    second: LogicEvent,
)
    requires
        !targets.dom().contains(name),
    ensures
        ({
            let (t1, p1, _) = creep_logic_step(
                targets,
                name,
                LogicPhase::AwaitStatus,
                LogicEvent::Status(status),
            );
            let (t2, _, _) = creep_logic_step(t1, name, p1, second);
            t2.dom().contains(name) ==> (t2[name] is Upgrade <==> status.energy_used > 0)
        }),
{
}

/// A creep that has no target starts by searching: for the room's
/// controller whenever it carries any energy, for an active source whenever
/// it carries none, however much room its store has left; the table is left
/// as it is.
pub proof fn law_logic_untargeted_creep_searches_by_energy(
    targets: Map<Seq<char>, CreepTarget>,
    name: Seq<char>,
    status: LogicStatus,
)
    requires
        !targets.dom().contains(name),
    ensures
        ({
            let (after, _, action) = creep_logic_step(
                targets,
                name,
                LogicPhase::AwaitStatus,
                LogicEvent::Status(status),
            );
            &&& after == targets
            &&& status.energy_used > 0 ==> action == LogicAction::FindController
            &&& status.energy_used == 0 ==> action == LogicAction::FindActiveSource
        }),
{
}

/// Answers that report success never cost the creep its target: a
/// harvest or upgrade that went through, an upgrade out of reach, a found
/// object, or a given move order leave the whole table as it was, in every
/// phase; a successful upgrade or harvest ends the tick.
pub proof fn law_logic_success_keeps_targets(
    targets: Map<Seq<char>, CreepTarget>,
    name: Seq<char>,
    phase: LogicPhase,
    event: LogicEvent,
)
    requires
        event matches LogicEvent::Harvested(true) || event matches LogicEvent::Upgraded(
            UpgradeOutcome::Upgraded,
        ) || event matches LogicEvent::Upgraded(UpgradeOutcome::NotInRange)
            || event matches LogicEvent::Resolved(Some(_)) || event is Acted,
    ensures
        creep_logic_step(targets, name, phase, event).0 == targets,
        (phase is AwaitUpgrade && event matches LogicEvent::Upgraded(UpgradeOutcome::Upgraded))
            ==> creep_logic_step(targets, name, phase, event).2 == LogicAction::Finish,
        (phase is AwaitHarvest && event matches LogicEvent::Harvested(true)) ==> creep_logic_step(
            targets,
            name,
            phase,
            event,
        ).2 == LogicAction::Finish,
{
}

/// Takes one decision of the creep named `name` and updates its entry in
/// `creep_targets`. A kept upgrade target needs carried energy and a kept
/// harvest target room for energy, else it is dropped; a controller that is
/// gone, or a refused upgrade or harvest, drops the target (a source that is
/// gone does not); an out-of-reach target gets a move order. A creep without
/// a target gets the room's first controller when it carries energy, else
/// the room's first active source.
pub fn run_creep(
    creep_targets: &mut TargetTable<CreepTarget>,
    name: &String,
    phase: LogicPhase,
    event: LogicEvent,
) -> (r: (LogicPhase, LogicAction))
    ensures
        (final(creep_targets)@, r.0, r.1) == creep_logic_step(old(creep_targets)@, name@, phase, event),
{
    match phase {
        LogicPhase::AwaitStatus => match event {
            LogicEvent::Status(s) => match creep_targets.get(name) {
                Some(CreepTarget::Upgrade(k)) => {
                    if s.energy_used > 0 {
                        (LogicPhase::AwaitController(k), LogicAction::ResolveController(k))
                    } else {
                        creep_targets.remove(name);
                        (LogicPhase::Done, LogicAction::Finish)
                    }
                },
                Some(CreepTarget::Harvest(k)) => {
                    if s.energy_free > 0 {
                        (LogicPhase::AwaitSource(s, k), LogicAction::ResolveSource(k))
                    } else {
                        creep_targets.remove(name);
                        (LogicPhase::Done, LogicAction::Finish)
                    }
                },
                None => {
                    if s.energy_used > 0 {
                        (LogicPhase::AwaitControllerSearch, LogicAction::FindController)
                    } else {
                        (LogicPhase::AwaitSourceSearch, LogicAction::FindActiveSource)
                    }
                },
            },
            _ => (LogicPhase::Done, LogicAction::Finish),
        },
        LogicPhase::AwaitController(k) => match event {
            LogicEvent::Resolved(Some(p)) => (LogicPhase::AwaitUpgrade(p), LogicAction::UpgradeController(k)),
            LogicEvent::Resolved(None) => {
                creep_targets.remove(name);
                (LogicPhase::Done, LogicAction::Finish)
            },
            _ => (LogicPhase::Done, LogicAction::Finish),
        },
        LogicPhase::AwaitUpgrade(p) => match event {
            LogicEvent::Upgraded(UpgradeOutcome::Upgraded) => (LogicPhase::Done, LogicAction::Finish),
            LogicEvent::Upgraded(UpgradeOutcome::NotInRange) => (LogicPhase::AwaitMoveTo, LogicAction::MoveTo(p)),
            LogicEvent::Upgraded(UpgradeOutcome::Failed) => {
                creep_targets.remove(name);
                (LogicPhase::Done, LogicAction::Finish)
            },
            _ => (LogicPhase::Done, LogicAction::Finish),
        },
        LogicPhase::AwaitSource(s, k) => match event {
            LogicEvent::Resolved(Some(p)) => {
                if pos_is_near_to(s.pos, p) {
                    (LogicPhase::AwaitHarvest, LogicAction::HarvestSource(k))
                } else {
                    (LogicPhase::AwaitMoveTo, LogicAction::MoveTo(p))
                }
            },
            _ => (LogicPhase::Done, LogicAction::Finish),
        },
        LogicPhase::AwaitHarvest => match event {
            LogicEvent::Harvested(true) => (LogicPhase::Done, LogicAction::Finish),
            LogicEvent::Harvested(false) => {
                creep_targets.remove(name);
                (LogicPhase::Done, LogicAction::Finish)
            },
            _ => (LogicPhase::Done, LogicAction::Finish),
        },
        LogicPhase::AwaitControllerSearch => match event {
            LogicEvent::Found(Some(k)) => {
                creep_targets.insert(name, CreepTarget::Upgrade(k));
                (LogicPhase::Done, LogicAction::Finish)
            },
            _ => (LogicPhase::Done, LogicAction::Finish),
        },
        LogicPhase::AwaitSourceSearch => match event {
            LogicEvent::Found(Some(k)) => {
                creep_targets.insert(name, CreepTarget::Harvest(k));
                (LogicPhase::Done, LogicAction::Finish)
            },
            _ => (LogicPhase::Done, LogicAction::Finish),
        },
        _ => (LogicPhase::Done, LogicAction::Finish),
    }
}

} // verus!
