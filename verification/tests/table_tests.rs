use korman_screeps_bot::table::TargetTable;
use korman_screeps_bot::types::{CreepId, CreepTarget};

#[test]
fn read_after_write() {
    let mut t: TargetTable<CreepTarget> = TargetTable::new();
    let a = String::from("alpha");
    let b = String::from("beta");
    assert_eq!(t.get(&a), None);
    t.insert(&a, CreepTarget::Harvest(7));
    t.insert(&b, CreepTarget::Upgrade(9));
    assert_eq!(t.get(&a), Some(CreepTarget::Harvest(7)));
    assert_eq!(t.get(&b), Some(CreepTarget::Upgrade(9)));
    t.insert(&a, CreepTarget::Upgrade(1));
    assert_eq!(t.get(&a), Some(CreepTarget::Upgrade(1)));
    assert_eq!(t.get(&b), Some(CreepTarget::Upgrade(9)));
    t.remove(&a);
    assert_eq!(t.get(&a), None);
    assert!(!t.contains(&a));
    assert!(t.contains(&b));
    t.remove(&a);
    assert_eq!(t.get(&b), Some(CreepTarget::Upgrade(9)));
}

#[test]
fn creep_id_holds_name() {
    let id = CreepId(String::from("Worker-5-0"));
    let copy = id.clone();
    assert_eq!(copy.0, "Worker-5-0");
}
