use korman_screeps_bot::creep::UpgradeOutcome;
use korman_screeps_bot::game_logic::creep_logic::{
    run_creep, CreepTarget, LogicAction, LogicEvent, LogicPhase, LogicStatus,
};
use korman_screeps_bot::position::Pos;
use korman_screeps_bot::table::TargetTable;

fn at(x: u32, y: u32) -> Pos {
    Pos::from_packed((0x80u32 << 24) | (0x80u32 << 16) | (x << 8) | y).unwrap()
}

fn status(used: u32, free: i32) -> LogicStatus {
    LogicStatus { energy_used: used, energy_free: free, pos: at(10, 10) }
}

fn name() -> String {
    String::from("creep-a")
}

#[test]
fn logic_upgrade_flow() {
    let mut t = TargetTable::new();
    t.insert(&name(), CreepTarget::Upgrade(3));
    let (p, a) = run_creep(&mut t, &name(), LogicPhase::AwaitStatus, LogicEvent::Status(status(10, 40)));
    assert_eq!(a, LogicAction::ResolveController(3));
    let (p, a) = run_creep(&mut t, &name(), p, LogicEvent::Resolved(Some(at(20, 20))));
    assert_eq!(a, LogicAction::UpgradeController(3));
    let (p, a) = run_creep(&mut t, &name(), p, LogicEvent::Upgraded(UpgradeOutcome::NotInRange));
    assert_eq!(a, LogicAction::MoveTo(at(20, 20)));
    let (_, a) = run_creep(&mut t, &name(), p, LogicEvent::Acted);
    assert_eq!(a, LogicAction::Finish);
    assert_eq!(t.get(&name()), Some(CreepTarget::Upgrade(3)));
}

#[test]
fn logic_drops_unworkable_targets() {
    let mut t = TargetTable::new();
    t.insert(&name(), CreepTarget::Upgrade(3));
    let (_, a) = run_creep(&mut t, &name(), LogicPhase::AwaitStatus, LogicEvent::Status(status(0, 40)));
    assert_eq!(a, LogicAction::Finish);
    assert_eq!(t.get(&name()), None);
    t.insert(&name(), CreepTarget::Harvest(4));
    let (_, a) = run_creep(&mut t, &name(), LogicPhase::AwaitStatus, LogicEvent::Status(status(40, 0)));
    assert_eq!(a, LogicAction::Finish);
    assert_eq!(t.get(&name()), None);
}

#[test]
fn logic_vanished_source_keeps_target() {
    let mut t = TargetTable::new();
    t.insert(&name(), CreepTarget::Harvest(4));
    let (p, a) = run_creep(&mut t, &name(), LogicPhase::AwaitStatus, LogicEvent::Status(status(0, 40)));
    assert_eq!(a, LogicAction::ResolveSource(4));
    let (_, a) = run_creep(&mut t, &name(), p, LogicEvent::Resolved(None));
    assert_eq!(a, LogicAction::Finish);
    assert_eq!(t.get(&name()), Some(CreepTarget::Harvest(4)));
}

#[test]
fn logic_vanished_controller_drops_target() {
    let mut t = TargetTable::new();
    t.insert(&name(), CreepTarget::Upgrade(3));
    let (_, a) = run_creep(&mut t, &name(), LogicPhase::AwaitController(3), LogicEvent::Resolved(None));
    assert_eq!(a, LogicAction::Finish);
    assert_eq!(t.get(&name()), None);
}

#[test]
fn logic_harvest_near_or_move() {
    let mut t = TargetTable::new();
    t.insert(&name(), CreepTarget::Harvest(4));
    let s = status(0, 40);
    let (p, a) = run_creep(&mut t, &name(), LogicPhase::AwaitSource(s, 4), LogicEvent::Resolved(Some(at(9, 11))));
    assert_eq!(a, LogicAction::HarvestSource(4));
    let (_, a) = run_creep(&mut t, &name(), p, LogicEvent::Harvested(true));
    assert_eq!(a, LogicAction::Finish);
    assert_eq!(t.get(&name()), Some(CreepTarget::Harvest(4)));
    let (_, a) = run_creep(&mut t, &name(), LogicPhase::AwaitSource(s, 4), LogicEvent::Resolved(Some(at(30, 11))));
    assert_eq!(a, LogicAction::MoveTo(at(30, 11)));
    let (_, a) = run_creep(&mut t, &name(), LogicPhase::AwaitHarvest, LogicEvent::Harvested(false));
    assert_eq!(a, LogicAction::Finish);
    assert_eq!(t.get(&name()), None);
}

#[test]
fn logic_new_targets() {
    let mut t = TargetTable::new();
    let (p, a) = run_creep(&mut t, &name(), LogicPhase::AwaitStatus, LogicEvent::Status(status(5, 40)));
    assert_eq!(a, LogicAction::FindController);
    let (_, a) = run_creep(&mut t, &name(), p, LogicEvent::Found(Some(12)));
    assert_eq!(a, LogicAction::Finish);
    assert_eq!(t.get(&name()), Some(CreepTarget::Upgrade(12)));

    let other = String::from("creep-b");
    let (p, a) = run_creep(&mut t, &other, LogicPhase::AwaitStatus, LogicEvent::Status(status(0, 40)));
    assert_eq!(a, LogicAction::FindActiveSource);
    let (_, a) = run_creep(&mut t, &other, p, LogicEvent::Found(None));
    assert_eq!(a, LogicAction::Finish);
    assert_eq!(t.get(&other), None);
    let (_, _) = run_creep(&mut t, &other, LogicPhase::AwaitSourceSearch, LogicEvent::Found(Some(6)));
    assert_eq!(t.get(&other), Some(CreepTarget::Harvest(6)));
    assert_eq!(t.get(&name()), Some(CreepTarget::Upgrade(12)));
}
