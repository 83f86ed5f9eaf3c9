use korman_screeps_bot::movement::{
    direction_from_delta, direction_from_number, random_direction, smart_move, Direction,
    MoveAction, MoveEvent, MovePhase, MoveToOutcome, MoverStatus,
};
use korman_screeps_bot::position::Pos;

/// Packed position in the room whose room bytes are both 0x80 (room E0S0).
fn at(x: u32, y: u32) -> Pos {
    Pos::from_packed((0x80u32 << 24) | (0x80u32 << 16) | (x << 8) | y).unwrap()
}

fn status(pos: Pos, fatigue: u32, body_parts: usize) -> MoverStatus {
    MoverStatus { pos, fatigue, body_parts }
}

#[test]
fn delta_to_direction_table() {
    assert_eq!(direction_from_delta(0, -1), Direction::Top);
    assert_eq!(direction_from_delta(1, -1), Direction::TopRight);
    assert_eq!(direction_from_delta(1, 0), Direction::Right);
    assert_eq!(direction_from_delta(1, 1), Direction::BottomRight);
    assert_eq!(direction_from_delta(0, 1), Direction::Bottom);
    assert_eq!(direction_from_delta(-1, 1), Direction::BottomLeft);
    assert_eq!(direction_from_delta(-1, 0), Direction::Left);
    assert_eq!(direction_from_delta(-1, -1), Direction::TopLeft);
}

#[test]
fn delta_outside_unit_steps_is_top() {
    assert_eq!(direction_from_delta(0, 0), Direction::Top);
    assert_eq!(direction_from_delta(2, 0), Direction::Top);
    assert_eq!(direction_from_delta(-5, 7), Direction::Top);
}

#[test]
fn numbered_directions() {
    let expected = [
        Direction::Top,
        Direction::TopRight,
        Direction::Right,
        Direction::BottomRight,
        Direction::Bottom,
        Direction::BottomLeft,
        Direction::Left,
        Direction::TopLeft,
    ];
    for k in 1u8..=8 {
        assert_eq!(direction_from_number(k), expected[(k - 1) as usize]);
    }
}

#[test]
fn random_direction_draws_succeed() {
    for _ in 0..100 {
        let _d = random_direction();
    }
}

#[test]
fn tired_creep_does_not_move() {
    let r = smart_move(MovePhase::Start, MoveEvent::Begin(status(at(10, 10), 3, 4), at(30, 30)));
    assert!(matches!(r.0, MovePhase::Done));
    assert!(matches!(r.1, MoveAction::Report(false)));
}

#[test]
fn creep_without_body_does_not_move() {
    let r = smart_move(MovePhase::Start, MoveEvent::Begin(status(at(10, 10), 0, 0), at(30, 30)));
    assert!(matches!(r.1, MoveAction::Report(false)));
}

#[test]
fn creep_next_to_target_reports_success() {
    let r = smart_move(MovePhase::Start, MoveEvent::Begin(status(at(10, 10), 0, 4), at(11, 9)));
    assert!(matches!(r.1, MoveAction::Report(true)));
    let r = smart_move(MovePhase::Start, MoveEvent::Begin(status(at(10, 10), 0, 4), at(10, 10)));
    assert!(matches!(r.1, MoveAction::Report(true)));
}

#[test]
fn creep_two_tiles_away_is_ordered_to_move() {
    let target = at(12, 10);
    let r = smart_move(MovePhase::Start, MoveEvent::Begin(status(at(10, 10), 0, 4), target));
    assert!(matches!(r.0, MovePhase::AwaitMoveTo(_, _)));
    match r.1 {
        MoveAction::MoveTo(p) => assert_eq!(p, target),
        _ => panic!("expected a move order"),
    }
}

#[test]
fn range_counts_across_rooms() {
    // x = 49 in room byte 0x80 and x = 0 in room byte 0x81 are neighbours in the world.
    let here = at(49, 10);
    let there = Pos::from_packed((0x81u32 << 24) | (0x80u32 << 16) | (0u32 << 8) | 10).unwrap();
    let r = smart_move(MovePhase::Start, MoveEvent::Begin(status(here, 0, 4), there));
    assert!(matches!(r.1, MoveAction::Report(true)));
}

#[test]
fn accepted_move_reports_whether_position_changed() {
    let from = at(10, 10);
    let target = at(20, 20);
    let r = smart_move(
        MovePhase::AwaitMoveTo(from, target),
        MoveEvent::MoveToResult(MoveToOutcome::Accepted(at(11, 10))),
    );
    assert!(matches!(r.1, MoveAction::Report(true)));
    let r = smart_move(
        MovePhase::AwaitMoveTo(from, target),
        MoveEvent::MoveToResult(MoveToOutcome::Accepted(at(10, 10))),
    );
    assert!(matches!(r.1, MoveAction::Report(false)));
}

#[test]
fn no_path_steps_straight_towards_target() {
    let from = at(10, 10);
    let cases = [
        (at(20, 20), Direction::BottomRight),
        (at(10, 2), Direction::Top),
        (at(3, 10), Direction::Left),
        (at(30, 4), Direction::TopRight),
        (at(4, 30), Direction::BottomLeft),
    ];
    for (target, dir) in cases {
        let r = smart_move(
            MovePhase::AwaitMoveTo(from, target),
            MoveEvent::MoveToResult(MoveToOutcome::NoPath),
        );
        assert!(matches!(r.0, MovePhase::AwaitDirectStep));
        match r.1 {
            MoveAction::MoveDirection(d) => assert_eq!(d, dir),
            _ => panic!("expected a step"),
        }
    }
}

#[test]
fn straight_step_outcomes() {
    let r = smart_move(MovePhase::AwaitDirectStep, MoveEvent::DirectionResult(true));
    assert!(matches!(r.1, MoveAction::Report(true)));
    let r = smart_move(MovePhase::AwaitDirectStep, MoveEvent::DirectionResult(false));
    assert!(matches!(r.0, MovePhase::AwaitRandomStep));
    assert!(matches!(r.1, MoveAction::MoveDirection(_)));
    let r = smart_move(MovePhase::AwaitRandomStep, MoveEvent::DirectionResult(true));
    assert!(matches!(r.1, MoveAction::Report(true)));
    let r = smart_move(MovePhase::AwaitRandomStep, MoveEvent::DirectionResult(false));
    assert!(matches!(r.1, MoveAction::Report(false)));
}

#[test]
fn refused_move_tries_random_step_and_reports_failure() {
    let r = smart_move(
        MovePhase::AwaitMoveTo(at(1, 1), at(40, 40)),
        MoveEvent::MoveToResult(MoveToOutcome::Refused),
    );
    assert!(matches!(r.0, MovePhase::AwaitIgnoredStep));
    assert!(matches!(r.1, MoveAction::MoveDirection(_)));
    let r = smart_move(MovePhase::AwaitIgnoredStep, MoveEvent::DirectionResult(true));
    assert!(matches!(r.1, MoveAction::Report(false)));
}

#[test]
fn mismatched_event_reports_failure() {
    let r = smart_move(MovePhase::Start, MoveEvent::DirectionResult(true));
    assert!(matches!(r.1, MoveAction::Report(false)));
    let r = smart_move(MovePhase::Done, MoveEvent::DirectionResult(true));
    assert!(matches!(r.1, MoveAction::Report(false)));
}

#[test]
fn positions_reject_out_of_room_coordinates() {
    assert!(Pos::from_packed((0x80u32 << 24) | (50u32 << 8) | 3).is_none());
    assert!(Pos::from_packed((0x80u32 << 24) | (3u32 << 8) | 50).is_none());
    let p = Pos::from_packed(0x8080_3131).unwrap();
    assert_eq!(p.packed(), 0x8080_3131);
}
