//! Directions and the fallbacks that a creep tries when it is sent somewhere.
use rand::Rng;
use vstd::prelude::*;
use crate::position::{Pos, packed_x, packed_y, linear_range, pos_x, pos_y, pos_in_range_to};

verus! {

/// The eight directions of the game, in the game's numbering from 1 (top)
/// clockwise to 8 (top left).
#[derive(Clone, Copy, Debug, PartialEq, Eq, Structural)]
pub enum Direction {
    Top,
    TopRight,
    Right,
    BottomRight,
    Bottom,
    BottomLeft,
    Left,
    TopLeft,
}

/// The direction that a one-tile step `(dx, dy)` goes in (y grows downwards);
/// any other pair, `(0, 0)` among them, counts as `Top`.
pub open spec fn delta_direction(dx: i8, dy: i8) -> Direction {
    if dx == 0 && dy == -1 {
        Direction::Top
    } else if dx == 1 && dy == -1 {
        Direction::TopRight
    } else if dx == 1 && dy == 0 {
        Direction::Right
    } else if dx == 1 && dy == 1 {
        Direction::BottomRight
    } else if dx == 0 && dy == 1 {
        Direction::Bottom
    } else if dx == -1 && dy == 1 {
        Direction::BottomLeft
    } else if dx == -1 && dy == 0 {
        Direction::Left
    } else if dx == -1 && dy == -1 {
        Direction::TopLeft
    } else {
        Direction::Top
    }
}

/// The direction with game number `k` (1 to 8).
pub open spec fn numbered_direction(k: int) -> Direction {
    if k == 1 {
        Direction::Top
    } else if k == 2 {
        Direction::TopRight
    } else if k == 3 {
        Direction::Right
    } else if k == 4 {
        Direction::BottomRight
    } else if k == 5 {
        Direction::Bottom
    } else if k == 6 {
        Direction::BottomLeft
    } else if k == 7 {
        Direction::Left
    } else {
        Direction::TopLeft
    }
}

/// Computes the direction of a step from its signed unit offsets.
pub fn direction_from_delta(dx: i8, dy: i8) -> (d: Direction)
    ensures
        d == delta_direction(dx, dy),
{
    match (dx, dy) {
        (0, -1) => Direction::Top,
        (1, -1) => Direction::TopRight,
        (1, 0) => Direction::Right,
        (1, 1) => Direction::BottomRight,
        (0, 1) => Direction::Bottom,
        (-1, 1) => Direction::BottomLeft,
        (-1, 0) => Direction::Left,
        (-1, -1) => Direction::TopLeft,
        _ => Direction::Top,
    }
}

/// The direction with game number `k`.
pub fn direction_from_number(k: u8) -> (d: Direction)
    requires
        1 <= k <= 8,
    ensures
        d == numbered_direction(k as int),
{
    if k == 1 {
        Direction::Top
    } else if k == 2 {
        Direction::TopRight
    } else if k == 3 {
        Direction::Right
    } else if k == 4 {
        Direction::BottomRight
    } else if k == 5 {
        Direction::Bottom
    } else if k == 6 {
        Direction::BottomLeft
    } else if k == 7 {
        Direction::Left
    } else {
        Direction::TopLeft
    }
}

/// A number drawn uniformly from 1 to 8 by `rand::Rng::gen_range` on the
/// thread-local generator `rand::thread_rng`. The contract claims only the
/// range: the value itself rests on chance.
#[verifier::external_body]
fn random_direction_number() -> (k: u8)
    ensures
        1 <= k <= 8,
{
    rand::thread_rng().gen_range(1u8..=8u8)
}

/// A direction drawn at random.
pub fn random_direction() -> (d: Direction) {
    let k: u8 = random_direction_number();
    direction_from_number(k)
}

/// What the mover reads of the creep before it decides anything.
#[derive(Clone, Copy, Debug)]
pub struct MoverStatus {
    /// Where the creep stands.
    pub pos: Pos,
    /// The creep's fatigue; a tired creep cannot move.
    pub fatigue: u32,
    /// How many body parts the creep has.
    pub body_parts: usize,
}

/// What the game answered to a path-finding move order.
#[derive(Clone, Copy, Debug)]
pub enum MoveToOutcome {
    /// The order was accepted; the creep now stands at this position.
    Accepted(Pos),
    /// No path leads to the target.
    NoPath,
    /// Any other refusal.
    Refused,
}

/// What the mover learns between two decisions.
#[derive(Clone, Copy, Debug)]
pub enum MoveEvent {
    /// The creep's state and the position to reach.
    Begin(MoverStatus, Pos),
    /// The answer to a `MoveTo` action.
    MoveToResult(MoveToOutcome),
    /// Whether a `MoveDirection` action was accepted.
    DirectionResult(bool),
}

/// Where the mover stands in its sequence of attempts.
#[derive(Clone, Copy, Debug)]
pub enum MovePhase {
    /// Nothing decided yet.
    Start,
    /// A path-finding move from the first position to the second was ordered.
    AwaitMoveTo(Pos, Pos),
    /// A one-tile step straight towards the target was ordered.
    AwaitDirectStep,
    /// A step in a random direction was ordered after the straight step failed.
    AwaitRandomStep,
    /// A random step was ordered whose answer does not matter.
    AwaitIgnoredStep,
    /// The answer is known.
    Done,
}

/// What the mover asks the caller to do next.
#[derive(Clone, Copy, Debug)]
pub enum MoveAction {
    /// Order a path-finding move to this position.
    MoveTo(Pos),
    /// Order a one-tile step in this direction.
    MoveDirection(Direction),
    /// Stop: this is whether the creep moved (or is already close enough).
    Report(bool),
}

/// Sign of an integer as a unit offset.
pub open spec fn unit_sign(v: int) -> i8 {
    if v > 0 {
        1i8
    } else if v < 0 {
        -1i8
    } else {
        0i8
    }
}

/// The straight step from `from` towards `target`, by in-room coordinates.
pub open spec fn step_towards(from: Pos, target: Pos) -> Direction {
    delta_direction(
        unit_sign(packed_x(target@) - packed_x(from@)),
        unit_sign(packed_y(target@) - packed_y(from@)),
    )
}

/// One decision of the mover; `drawn` is the direction that a random draw
/// gives, where one is made.
pub open spec fn smart_move_step(phase: MovePhase, event: MoveEvent, drawn: Direction) -> (
    MovePhase,
    MoveAction,
) {
    match phase {
        MovePhase::Start => match event {
            MoveEvent::Begin(status, target) => {
                if status.fatigue > 0 {
                    (MovePhase::Done, MoveAction::Report(false))
                } else if status.body_parts == 0 {
                    (MovePhase::Done, MoveAction::Report(false))
                } else if linear_range(status.pos@, target@) <= 1 {
                    (MovePhase::Done, MoveAction::Report(true))
                } else {
                    (MovePhase::AwaitMoveTo(status.pos, target), MoveAction::MoveTo(target))
                }
            },
            _ => (MovePhase::Done, MoveAction::Report(false)),
        },
        MovePhase::AwaitMoveTo(from, target) => match event {
            MoveEvent::MoveToResult(MoveToOutcome::Accepted(now)) => (
                MovePhase::Done,
                MoveAction::Report(
                    packed_x(now@) != packed_x(from@) || packed_y(now@) != packed_y(from@),
                ),
            ),
            MoveEvent::MoveToResult(MoveToOutcome::NoPath) => (
                MovePhase::AwaitDirectStep,
                MoveAction::MoveDirection(step_towards(from, target)),
            ),
            MoveEvent::MoveToResult(MoveToOutcome::Refused) => (
                MovePhase::AwaitIgnoredStep,
                MoveAction::MoveDirection(drawn),
            ),
            _ => (MovePhase::Done, MoveAction::Report(false)),
        },
        MovePhase::AwaitDirectStep => match event {
            MoveEvent::DirectionResult(true) => (MovePhase::Done, MoveAction::Report(true)),
            MoveEvent::DirectionResult(false) => (
                MovePhase::AwaitRandomStep,
                MoveAction::MoveDirection(drawn),
            ),
            _ => (MovePhase::Done, MoveAction::Report(false)),
        },
        MovePhase::AwaitRandomStep => match event {
            MoveEvent::DirectionResult(ok) => (MovePhase::Done, MoveAction::Report(ok)),
            _ => (MovePhase::Done, MoveAction::Report(false)),
        },
        _ => (MovePhase::Done, MoveAction::Report(false)),
    }
}

/// Whether this decision draws a random direction.
pub open spec fn draws_direction(phase: MovePhase, event: MoveEvent) -> bool {
    ||| phase is AwaitMoveTo && event matches MoveEvent::MoveToResult(MoveToOutcome::Refused)
    ||| phase is AwaitDirectStep && event matches MoveEvent::DirectionResult(false)
}

/// Ordering of the phases: every decision that does not report moves to a
/// lower rank, so the mover reports after at most three actions.
pub open spec fn move_phase_rank(phase: MovePhase) -> int {
    match phase {
        MovePhase::Start => 3,
        MovePhase::AwaitMoveTo(_, _) => 2,
        MovePhase::AwaitDirectStep => 1,
        _ => 0,
    }
}

/// Every decision either reports, in phase `Done`, or lowers the phase's
/// rank, except the ignored random step, which reports on any answer: the
/// mover always reports, after at most three actions.
pub proof fn law_smart_move_progress(phase: MovePhase, event: MoveEvent, drawn: Direction)
    ensures
        ({
            let (next, action) = smart_move_step(phase, event, drawn);
            (action is Report && next is Done) || (next is AwaitIgnoredStep && action is MoveDirection)
                || (!(action is Report) && move_phase_rank(next) < move_phase_rank(phase))
        }),
        phase is AwaitIgnoredStep ==> smart_move_step(phase, event, drawn).1 is Report,
{
}

/// The first decision: a tired creep, or one without body parts, reports
/// failure; otherwise a creep within one tile of the target reports success;
/// only a creep farther away is ordered to move.
pub proof fn law_smart_move_start(status: MoverStatus, target: Pos, drawn: Direction)
    ensures
        ({
            let (_, action) = smart_move_step(MovePhase::Start, MoveEvent::Begin(status, target), drawn);
            &&& (status.fatigue > 0 || status.body_parts == 0) ==> action == MoveAction::Report(false)
            &&& (status.fatigue == 0 && status.body_parts > 0 && linear_range(status.pos@, target@) <= 1)
                ==> action == MoveAction::Report(true)
            &&& action is MoveTo ==> linear_range(status.pos@, target@) > 1
        }),
{
}

/// The eight one-tile steps go in eight different directions.
pub proof fn law_unit_steps_distinct(dx1: i8, dy1: i8, dx2: i8, dy2: i8)
    requires
        -1 <= dx1 <= 1,
        -1 <= dy1 <= 1,
        -1 <= dx2 <= 1,
        -1 <= dy2 <= 1,
        dx1 != 0 || dy1 != 0,
        dx2 != 0 || dy2 != 0,
        dx1 != dx2 || dy1 != dy2,
    ensures
        delta_direction(dx1, dy1) != delta_direction(dx2, dy2),
{
}

/// After a creep far from its target is ordered to move, the answers are
/// judged from where the creep stood: with no path, it steps one tile
/// towards the target, by the signs of the in-room offsets from the creep to
/// the target; an accepted move counts as moving only when the creep's new
/// in-room position differs from its old one.
pub proof fn law_fallbacks_measured_from_creep(
    status: MoverStatus,
    target: Pos,
    now: Pos,
    d1: Direction,
    d2: Direction,
)
    requires
        status.fatigue == 0,
        status.body_parts > 0,
        linear_range(status.pos@, target@) > 1,
    ensures
        ({
            let (p1, a1) = smart_move_step(MovePhase::Start, MoveEvent::Begin(status, target), d1);
            let dx = packed_x(target@) - packed_x(status.pos@);
            let dy = packed_y(target@) - packed_y(status.pos@);
            &&& a1 == MoveAction::MoveTo(target)
            &&& smart_move_step(p1, MoveEvent::MoveToResult(MoveToOutcome::NoPath), d2).1
                == MoveAction::MoveDirection(
                delta_direction(
                    if dx > 0 { 1i8 } else if dx < 0 { -1i8 } else { 0i8 },
                    if dy > 0 { 1i8 } else if dy < 0 { -1i8 } else { 0i8 },
                ),
            )
            &&& smart_move_step(p1, MoveEvent::MoveToResult(MoveToOutcome::Accepted(now)), d2).1
                == MoveAction::Report(
                packed_x(now@) != packed_x(status.pos@) || packed_y(now@) != packed_y(status.pos@),
            )
        }),
{
}

/// Takes one decision towards moving a creep next to a target: a tired creep
/// or one without body parts does not move, one already within one tile
/// reports success; otherwise it orders a path-finding move, and when no path
/// exists, a straight step, then a random one; after any other refusal it
/// orders a random step and reports failure.
pub fn smart_move(phase: MovePhase, event: MoveEvent) -> (r: (MovePhase, MoveAction))
    ensures
        exists|d: Direction| r == #[trigger] smart_move_step(phase, event, d),
        !draws_direction(phase, event) ==> r == smart_move_step(phase, event, Direction::Top),
{
    let r = match phase {
        MovePhase::Start => match event {
            MoveEvent::Begin(status, target) => {
                if status.fatigue > 0 {
                    (MovePhase::Done, MoveAction::Report(false))
                } else if status.body_parts == 0 {
                    (MovePhase::Done, MoveAction::Report(false))
                } else if pos_in_range_to(status.pos, target, 1) {
                    (MovePhase::Done, MoveAction::Report(true))
                } else {
                    (MovePhase::AwaitMoveTo(status.pos, target), MoveAction::MoveTo(target))
                }
            },
            _ => (MovePhase::Done, MoveAction::Report(false)),
        },
        MovePhase::AwaitMoveTo(from, target) => match event {
            MoveEvent::MoveToResult(MoveToOutcome::Accepted(now)) => {
                let moved = pos_x(now) != pos_x(from) || pos_y(now) != pos_y(from);
                (MovePhase::Done, MoveAction::Report(moved))
            },
            MoveEvent::MoveToResult(MoveToOutcome::NoPath) => {
                let tx: u8 = pos_x(target);
                let ty: u8 = pos_y(target);
                let fx: u8 = pos_x(from);
                let fy: u8 = pos_y(from);
                let dx: i8 = if tx > fx {
                    1
                } else if tx < fx {
                    -1
                } else {
                    0
                };
                let dy: i8 = if ty > fy {
                    1
                } else if ty < fy {
                    -1
                } else {
                    0
                };
                (MovePhase::AwaitDirectStep, MoveAction::MoveDirection(direction_from_delta(dx, dy)))
            },
            MoveEvent::MoveToResult(MoveToOutcome::Refused) => {
                let d = random_direction();
                let r = (MovePhase::AwaitIgnoredStep, MoveAction::MoveDirection(d));
                assert(r == smart_move_step(phase, event, d));
                r
            },
            _ => (MovePhase::Done, MoveAction::Report(false)),
        },
        MovePhase::AwaitDirectStep => match event {
            MoveEvent::DirectionResult(true) => (MovePhase::Done, MoveAction::Report(true)),
            MoveEvent::DirectionResult(false) => {
                let d = random_direction();
                let r = (MovePhase::AwaitRandomStep, MoveAction::MoveDirection(d));
                assert(r == smart_move_step(phase, event, d));
                r
            },
            _ => (MovePhase::Done, MoveAction::Report(false)),
        },
        MovePhase::AwaitRandomStep => match event {
            MoveEvent::DirectionResult(ok) => (MovePhase::Done, MoveAction::Report(ok)),
            _ => (MovePhase::Done, MoveAction::Report(false)),
        },
        _ => (MovePhase::Done, MoveAction::Report(false)),
    };
    proof {
        if !draws_direction(phase, event) {
            assert(r == smart_move_step(phase, event, Direction::Top));
        }
    }
    r
}

} // verus!
