use korman_screeps_bot::body::{body_cost, BodyPart};
use korman_screeps_bot::game_logic::spawning::{
    begin_spawn_round, role_body_parts, role_name, spawn_creep, Role, SpawnRound, SpawnerStatus,
    MAX_HAULERS, MAX_WORKERS,
};
use korman_screeps_bot::naming::{count_with_prefix, has_prefix, SpawnTally};
use korman_screeps_bot::systems::{memory_cleanup_system, spawn_creep_system};

fn round(workers: usize, haulers: usize) -> SpawnRound {
    SpawnRound { worker_count: workers, hauler_count: haulers, tally: SpawnTally::new(1234) }
}

#[test]
fn part_costs_follow_game_table() {
    let parts = [
        (BodyPart::Move, 50),
        (BodyPart::Work, 100),
        (BodyPart::Carry, 50),
        (BodyPart::Attack, 80),
        (BodyPart::RangedAttack, 150),
        (BodyPart::Tough, 10),
        (BodyPart::Heal, 250),
        (BodyPart::Claim, 600),
    ];
    for (p, c) in parts {
        assert_eq!(body_cost(&vec![p]), c);
    }
    assert_eq!(body_cost(&vec![]), 0);
    assert_eq!(body_cost(&role_body_parts(Role::Worker)), 300);
    assert_eq!(body_cost(&role_body_parts(Role::Hauler)), 200);
}

#[test]
fn prefixes_and_counts() {
    assert!(has_prefix("Worker-12-0", "Worker-"));
    assert!(!has_prefix("Work", "Worker-"));
    assert!(has_prefix("abc", ""));
    assert!(!has_prefix("Hauler-1-0", "Worker-"));
    let names = vec![
        String::from("Worker-1-0"),
        String::from("Hauler-1-1"),
        String::from("Worker-2-0"),
        String::from("Worker"),
        String::from("12-0"),
    ];
    assert_eq!(count_with_prefix(&names, "Worker-"), 2);
    assert_eq!(count_with_prefix(&names, "Hauler-"), 1);
    let r = begin_spawn_round(&names, 99);
    assert_eq!(r.worker_count, 2);
    assert_eq!(r.hauler_count, 1);
    assert_eq!(r.tally.name_base, 99);
    assert_eq!(r.tally.additional, 0);
}

#[test]
fn busy_spawn_spawns_nothing() {
    assert!(spawn_creep(&round(0, 0), SpawnerStatus { spawning: true, energy: 1000 }).is_none());
}

#[test]
fn worker_first() {
    let o = spawn_creep(&round(0, 0), SpawnerStatus { spawning: false, energy: 300 }).unwrap();
    assert_eq!(o.name, "Worker-1234-0");
    assert_eq!(o.body, vec![BodyPart::Move, BodyPart::Carry, BodyPart::Work, BodyPart::Work]);
}

#[test]
fn hauler_when_worker_unaffordable_or_capped() {
    let o = spawn_creep(&round(0, 0), SpawnerStatus { spawning: false, energy: 299 }).unwrap();
    assert_eq!(o.name, "Hauler-1234-0");
    assert_eq!(o.body, vec![BodyPart::Move, BodyPart::Move, BodyPart::Carry, BodyPart::Carry]);
    let o = spawn_creep(&round(MAX_WORKERS, 0), SpawnerStatus { spawning: false, energy: 5000 }).unwrap();
    assert_eq!(o.name, "Hauler-1234-0");
}

#[test]
fn nothing_when_capped_or_poor() {
    assert!(spawn_creep(&round(MAX_WORKERS, MAX_HAULERS), SpawnerStatus { spawning: false, energy: 5000 }).is_none());
    assert!(spawn_creep(&round(0, 0), SpawnerStatus { spawning: false, energy: 199 }).is_none());
}

#[test]
fn names_count_up_within_a_tick() {
    let mut r = round(0, 0);
    let first = spawn_creep(&r, SpawnerStatus { spawning: false, energy: 300 }).unwrap();
    r.tally.record(true);
    let second = spawn_creep(&r, SpawnerStatus { spawning: false, energy: 300 }).unwrap();
    r.tally.record(false);
    let third = spawn_creep(&r, SpawnerStatus { spawning: false, energy: 300 }).unwrap();
    assert_eq!(first.name, "Worker-1234-0");
    assert_eq!(second.name, "Worker-1234-1");
    assert_eq!(third.name, "Worker-1234-1");
    assert_eq!(role_name(Role::Hauler), "Hauler");
}

#[test]
fn plain_spawner() {
    let mut t = SpawnTally::new(77);
    let o = spawn_creep_system(&t, 250).unwrap();
    assert_eq!(o.name, "77-0");
    assert_eq!(o.body, vec![BodyPart::Move, BodyPart::Move, BodyPart::Carry, BodyPart::Work]);
    t.record(true);
    assert_eq!(spawn_creep_system(&t, 1000).unwrap().name, "77-1");
    assert!(spawn_creep_system(&t, 249).is_none());
}

#[test]
fn cleanup_every_thousand_ticks() {
    let alive = vec![String::from("a"), String::from("c")];
    let remembered = vec![String::from("a"), String::from("b"), String::from("c"), String::from("d")];
    assert_eq!(memory_cleanup_system(3000, &alive, &remembered), vec![String::from("b"), String::from("d")]);
    assert_eq!(memory_cleanup_system(0, &alive, &remembered), vec![String::from("b"), String::from("d")]);
    assert!(memory_cleanup_system(2999, &alive, &remembered).is_empty());
    assert!(memory_cleanup_system(1000, &remembered, &alive).is_empty());
}
