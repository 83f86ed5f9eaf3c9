//! One tick of a creep's work: keep or drop its target, find a new one, and
//! act on it (upgrade, harvest, or move closer).
//!
//! The game is reached only by the caller: `run_creep` takes what the caller
//! observed and returns the next thing to do, until it returns `Finish`.
use vstd::prelude::*;
use crate::position::{Pos, near, pos_is_near_to};
use crate::table::TargetTable;
use crate::types::CreepTarget;

verus! {

/// What the creep's own state says at the start of the tick.
#[derive(Clone, Copy, Debug)]
pub struct CreepStatus {
    /// Whether the creep is still being spawned.
    pub spawning: bool,
    /// Energy that the creep carries.
    pub energy_used: u32,
    /// Room left for energy in the creep's store.
    pub energy_free: i32,
    /// The creep's fatigue.
    pub fatigue: u32,
    /// Where the creep stands.
    pub pos: Pos,
}

/// What the game answered to an upgrade order.
#[derive(Clone, Copy, Debug, PartialEq, Eq, Structural)]
pub enum UpgradeOutcome {
    /// The controller was upgraded.
    Upgraded,
    /// The controller is out of reach.
    NotInRange,
    /// Any other refusal.
    Failed,
}

/// What a search of the creep's room found.
#[derive(Clone, Copy, Debug)]
pub enum RoomSearch {
    /// The creep's room could not be read.
    NoRoom,
    /// The room holds nothing of the kind.
    NotFound,
    /// The first object of the kind: its id and its position.
    Found(u128, Pos),
}

/// What the caller reports back after each action.
#[derive(Clone, Copy, Debug)]
pub enum CreepEvent {
    /// The creep's state, read at the start.
    Status(CreepStatus),
    /// Where the object behind an id is, if it still exists.
    Resolved(Option<Pos>),
    /// The answer to an upgrade order.
    Upgraded(UpgradeOutcome),
    /// Whether a harvest order was accepted.
    Harvested(bool),
    /// What a room search found.
    Searched(RoomSearch),
    /// What moving the creep reported.
    Moved(bool),
}

/// What the caller is asked to do next.
#[derive(Clone, Copy, Debug, PartialEq, Eq, Structural)]
pub enum CreepAction {
    /// Look up the controller with this id; answer with `Resolved`.
    ResolveController(u128),
    /// Look up the source with this id; answer with `Resolved`.
    ResolveSource(u128),
    /// Order the creep to upgrade this controller; answer with `Upgraded`.
    UpgradeController(u128),
    /// Order the creep to harvest this source; answer with `Harvested`.
    HarvestSource(u128),
    /// Find the first controller among the room's structures; answer with `Searched`.
    FindController,
    /// Find the first active source of the room; answer with `Searched`.
    FindActiveSource,
    /// Move the creep towards this position (see `movement::smart_move`); answer with `Moved`.
    SmartMove(Pos),
    /// The tick's work for this creep is over.
    Finish,
}

/// Where the creep's tick stands.
#[derive(Clone, Copy, Debug)]
pub enum CreepPhase {
    /// Waiting for the creep's state.
    AwaitStatus,
    /// Waiting for the controller of the kept target to be looked up.
    AwaitController(CreepStatus, u128),
    /// Waiting for the source of the kept target to be looked up.
    AwaitSource(CreepStatus, u128),
    /// Waiting for the answer to an upgrade of the controller at this position.
    AwaitUpgrade(Pos),
    /// Waiting for the answer to a harvest.
    AwaitHarvest,
    /// Waiting for a controller search.
    AwaitControllerSearch(CreepStatus),
    /// Waiting for an active source search.
    AwaitSourceSearch(CreepStatus),
    /// Waiting for a move to end.
    AwaitMove,
    /// Nothing is left to do.
    Done,
}

/// One decision of a creep's tick, over the target table's view: the table
/// after it, the next phase, and the next action.
pub open spec fn run_creep_step(
    targets: Map<Seq<char>, CreepTarget>,
    name: Seq<char>,
    phase: CreepPhase,
    event: CreepEvent,
) -> (Map<Seq<char>, CreepTarget>, CreepPhase, CreepAction) {
    let finish = (targets, CreepPhase::Done, CreepAction::Finish);
    let drop_target = (targets.remove(name), CreepPhase::Done, CreepAction::Finish);
    match phase {
        CreepPhase::AwaitStatus => match event {
            CreepEvent::Status(s) => {
                if s.spawning {
                    finish
                } else if targets.dom().contains(name) {
                    match targets[name] {
                        CreepTarget::Upgrade(k) => if s.energy_used > 0 {
                            (
                                targets,
                                CreepPhase::AwaitController(s, k),
                                CreepAction::ResolveController(k),
                            )
                        } else {
                            drop_target
                        },
                        CreepTarget::Harvest(k) => if s.energy_free > 0 {
                            (targets, CreepPhase::AwaitSource(s, k), CreepAction::ResolveSource(k))
                        } else {
                            drop_target
                        },
                    }
                } else if s.energy_used > 0 {
                    (targets, CreepPhase::AwaitControllerSearch(s), CreepAction::FindController)
                } else {
                    (targets, CreepPhase::AwaitSourceSearch(s), CreepAction::FindActiveSource)
                }
            },
            _ => finish,
        },
        CreepPhase::AwaitController(_s, k) => match event {
            CreepEvent::Resolved(Some(p)) => (
                targets,
                CreepPhase::AwaitUpgrade(p),
                CreepAction::UpgradeController(k),
            ),
            CreepEvent::Resolved(None) => drop_target,
            _ => finish,
        },
        CreepPhase::AwaitUpgrade(p) => match event {
            CreepEvent::Upgraded(UpgradeOutcome::Upgraded) => finish,
            CreepEvent::Upgraded(UpgradeOutcome::NotInRange) => (
                targets,
                CreepPhase::AwaitMove,
                CreepAction::SmartMove(p),
            ),
            CreepEvent::Upgraded(UpgradeOutcome::Failed) => drop_target,
            _ => finish,
        },
        CreepPhase::AwaitSource(s, k) => match event {
            CreepEvent::Resolved(Some(p)) => if near(s.pos@, p@) {
                (targets, CreepPhase::AwaitHarvest, CreepAction::HarvestSource(k))
            } else {
                (targets, CreepPhase::AwaitMove, CreepAction::SmartMove(p))
            },
            CreepEvent::Resolved(None) => drop_target,
            _ => finish,
        },
        CreepPhase::AwaitHarvest => match event {
            CreepEvent::Harvested(true) => finish,
            CreepEvent::Harvested(false) => drop_target,
            _ => finish,
        },
        CreepPhase::AwaitControllerSearch(s) => match event {
            CreepEvent::Searched(RoomSearch::Found(k, p)) => {
                let assigned = targets.insert(name, CreepTarget::Upgrade(k));
                if !near(s.pos@, p@) && s.fatigue == 0 {
                    (assigned, CreepPhase::AwaitMove, CreepAction::SmartMove(p))
                } else {
                    (assigned, CreepPhase::Done, CreepAction::Finish)
                }
            },
            _ => finish,
        },
        CreepPhase::AwaitSourceSearch(s) => match event {
            CreepEvent::Searched(RoomSearch::Found(k, p)) => {
                let assigned = targets.insert(name, CreepTarget::Harvest(k));
                if !near(s.pos@, p@) && s.fatigue == 0 {
                    (assigned, CreepPhase::AwaitMove, CreepAction::SmartMove(p))
                } else {
                    (assigned, CreepPhase::Done, CreepAction::Finish)
                }
            },
            _ => finish,
        },
        _ => finish,
    }
}

/// Order of the phases: a decision that does not finish always moves to a
/// phase of lower rank, so a tick ends after at most four actions.
pub open spec fn creep_phase_rank(phase: CreepPhase) -> int {
    match phase {
        CreepPhase::AwaitStatus => 4,
        CreepPhase::AwaitController(_, _) => 3,
        CreepPhase::AwaitSource(_, _) => 3,
        CreepPhase::AwaitControllerSearch(_) => 3,
        CreepPhase::AwaitSourceSearch(_) => 3,
        CreepPhase::AwaitUpgrade(_) => 2,
        CreepPhase::AwaitHarvest => 2,
        CreepPhase::AwaitMove => 1,
        CreepPhase::Done => 0,
    }
}

/// A creep's tick changes no other creep's entry in the table.
pub proof fn law_run_creep_touches_own_entry_only(
    targets: Map<Seq<char>, CreepTarget>,
    name: Seq<char>,
    phase: CreepPhase,
    event: CreepEvent,
)
    ensures
        run_creep_step(targets, name, phase, event).0.remove(name) =~= targets.remove(name),
{
}

/// Every decision either finishes, in phase `Done`, or lowers the phase's
/// rank: a tick always ends.
pub proof fn law_run_creep_progress(
    targets: Map<Seq<char>, CreepTarget>,
    name: Seq<char>,
    phase: CreepPhase,
    event: CreepEvent,
)
    ensures
        ({
            let (_, next, action) = run_creep_step(targets, name, phase, event);
            (action is Finish && next is Done) || (!(action is Finish) && creep_phase_rank(next)
                < creep_phase_rank(phase))
        }),
{
}

/// A creep that is still being spawned does nothing and keeps its entry.
pub proof fn law_spawning_creep_idles(
    targets: Map<Seq<char>, CreepTarget>,
    name: Seq<char>,
    status: CreepStatus,
)
    requires
        status.spawning,
    ensures
        run_creep_step(targets, name, CreepPhase::AwaitStatus, CreepEvent::Status(status)) == (
            targets,
            CreepPhase::Done,
            CreepAction::Finish,
        ),
{
}

/// A target is kept only while the creep can work on it: an upgrade target
/// while it carries energy, a harvest target while it has room for energy;
/// otherwise the first decision drops it.
pub proof fn law_target_kept_while_workable(
    targets: Map<Seq<char>, CreepTarget>,
    name: Seq<char>,
    status: CreepStatus,
)
    requires
        !status.spawning,
        targets.dom().contains(name),
    ensures
        ({
            let (after, _, _) = run_creep_step(
                targets,
                name,
                CreepPhase::AwaitStatus,
                CreepEvent::Status(status),
            );
            let workable = match targets[name] {
                CreepTarget::Upgrade(_) => status.energy_used > 0,
                CreepTarget::Harvest(_) => status.energy_free > 0,
            };
            (workable ==> after == targets) && (!workable ==> after == targets.remove(name))
        }),
{
}

/// A creep without a target can be given one in its tick, and then it is an
/// upgrade target if the creep carries energy, a harvest target if not.
pub proof fn law_new_target_follows_energy(
    targets: Map<Seq<char>, CreepTarget>,
    name: Seq<char>,
    status: CreepStatus,
    second: CreepEvent,
)
    requires
        !status.spawning,
        !targets.dom().contains(name),
    ensures
        ({
            let (t1, p1, _) = run_creep_step(
                targets,
                name,
                CreepPhase::AwaitStatus,
                CreepEvent::Status(status),
            );
            let (t2, _, _) = run_creep_step(t1, name, p1, second);
            t2.dom().contains(name) ==> (t2[name] is Upgrade <==> status.energy_used > 0)
        }),
{
}

/// A creep that is not spawning and has no target starts by searching: for
/// the room's controller whenever it carries any energy, for an active
/// source whenever it carries none, however much room its store has left;
/// the table is left as it is.
pub proof fn law_untargeted_creep_searches_by_energy(
    targets: Map<Seq<char>, CreepTarget>,
    name: Seq<char>,
    status: CreepStatus,
)
    requires
        !status.spawning,
        !targets.dom().contains(name),
    ensures
        ({
            let (after, _, action) = run_creep_step(
                targets,
                name,
                CreepPhase::AwaitStatus,
                CreepEvent::Status(status),
            );
            &&& after == targets
            &&& status.energy_used > 0 ==> action == CreepAction::FindController
            &&& status.energy_used == 0 ==> action == CreepAction::FindActiveSource
        }),
{
}

/// Answers that report success never cost the creep its target: a
/// harvest or upgrade that went through, an upgrade out of reach, a found
/// object, or the end of a move leave the whole table as it was, in every
/// phase.
pub proof fn law_success_keeps_targets(
    targets: Map<Seq<char>, CreepTarget>,
    name: Seq<char>,
    phase: CreepPhase,
    event: CreepEvent,
)
    requires
        event matches CreepEvent::Harvested(true) || event matches CreepEvent::Upgraded(
            UpgradeOutcome::Upgraded,
        ) || event matches CreepEvent::Upgraded(UpgradeOutcome::NotInRange)
            || event matches CreepEvent::Resolved(Some(_)) || event is Moved,
    ensures
        run_creep_step(targets, name, phase, event).0 == targets,
        (phase is AwaitHarvest && event matches CreepEvent::Harvested(true)) ==> run_creep_step(
            targets,
            name,
            phase,
            event,
        ).2 == CreepAction::Finish,
{
}

/// Takes one decision of the creep named `name` and updates its entry in
/// `creep_targets`. A spawning creep does nothing. A kept upgrade target
/// needs carried energy and a kept harvest target room for energy, else it is
/// dropped; a target whose object is gone, or whose upgrade or harvest is
/// refused, is dropped too; an out-of-reach target makes the creep move. A
/// creep without a target gets the room's first controller when it carries
/// energy, else the room's first active source, and starts towards it.
pub fn run_creep(
    creep_targets: &mut TargetTable<CreepTarget>,
    name: &String,
    phase: CreepPhase,
    event: CreepEvent,
) -> (r: (CreepPhase, CreepAction))
    ensures
        (final(creep_targets)@, r.0, r.1) == run_creep_step(old(creep_targets)@, name@, phase, event),
{
    match phase {
        CreepPhase::AwaitStatus => match event {
            CreepEvent::Status(s) => {
                if s.spawning {
                    return (CreepPhase::Done, CreepAction::Finish);
                }
                match creep_targets.get(name) {
                    Some(CreepTarget::Upgrade(k)) => {
                        if s.energy_used > 0 {
                            (CreepPhase::AwaitController(s, k), CreepAction::ResolveController(k))
                        } else {
                            creep_targets.remove(name);
                            (CreepPhase::Done, CreepAction::Finish)
                        }
                    },
                    Some(CreepTarget::Harvest(k)) => {
                        if s.energy_free > 0 {
                            (CreepPhase::AwaitSource(s, k), CreepAction::ResolveSource(k))
                        } else {
                            creep_targets.remove(name);
                            (CreepPhase::Done, CreepAction::Finish)
                        }
                    },
                    None => {
                        if s.energy_used > 0 {
                            (CreepPhase::AwaitControllerSearch(s), CreepAction::FindController)
                        } else {
                            (CreepPhase::AwaitSourceSearch(s), CreepAction::FindActiveSource)
                        }
                    },
                }
            },
            _ => (CreepPhase::Done, CreepAction::Finish),
        },
        CreepPhase::AwaitController(_s, k) => match event {
            CreepEvent::Resolved(Some(p)) => (CreepPhase::AwaitUpgrade(p), CreepAction::UpgradeController(k)),
            CreepEvent::Resolved(None) => {
                creep_targets.remove(name);
                (CreepPhase::Done, CreepAction::Finish)
            },
            _ => (CreepPhase::Done, CreepAction::Finish),
        },
        CreepPhase::AwaitUpgrade(p) => match event {
            CreepEvent::Upgraded(UpgradeOutcome::Upgraded) => (CreepPhase::Done, CreepAction::Finish),
            CreepEvent::Upgraded(UpgradeOutcome::NotInRange) => (CreepPhase::AwaitMove, CreepAction::SmartMove(p)),
            CreepEvent::Upgraded(UpgradeOutcome::Failed) => {
                creep_targets.remove(name);
                (CreepPhase::Done, CreepAction::Finish)
            },
            _ => (CreepPhase::Done, CreepAction::Finish),
        },
        CreepPhase::AwaitSource(s, k) => match event {
            CreepEvent::Resolved(Some(p)) => {
                if pos_is_near_to(s.pos, p) {
                    (CreepPhase::AwaitHarvest, CreepAction::HarvestSource(k))
                } else {
                    (CreepPhase::AwaitMove, CreepAction::SmartMove(p))
                }
            },
            CreepEvent::Resolved(None) => {
                creep_targets.remove(name);
                (CreepPhase::Done, CreepAction::Finish)
            },
            _ => (CreepPhase::Done, CreepAction::Finish),
        },
        CreepPhase::AwaitHarvest => match event {
            CreepEvent::Harvested(true) => (CreepPhase::Done, CreepAction::Finish),
            CreepEvent::Harvested(false) => {
                creep_targets.remove(name);
                (CreepPhase::Done, CreepAction::Finish)
            },
            _ => (CreepPhase::Done, CreepAction::Finish),
        },
        CreepPhase::AwaitControllerSearch(s) => match event {
            CreepEvent::Searched(RoomSearch::Found(k, p)) => {
                creep_targets.insert(name, CreepTarget::Upgrade(k));
                if !pos_is_near_to(s.pos, p) && s.fatigue == 0 {
                    (CreepPhase::AwaitMove, CreepAction::SmartMove(p))
                } else {
                    (CreepPhase::Done, CreepAction::Finish)
                }
            },
            _ => (CreepPhase::Done, CreepAction::Finish),
        },
        CreepPhase::AwaitSourceSearch(s) => match event {
            CreepEvent::Searched(RoomSearch::Found(k, p)) => {
                creep_targets.insert(name, CreepTarget::Harvest(k));
                if !pos_is_near_to(s.pos, p) && s.fatigue == 0 {
                    (CreepPhase::AwaitMove, CreepAction::SmartMove(p))
                } else {
                    (CreepPhase::Done, CreepAction::Finish)
                }
            },
            _ => (CreepPhase::Done, CreepAction::Finish),
        },
        _ => (CreepPhase::Done, CreepAction::Finish),
    }
}

} // verus!
