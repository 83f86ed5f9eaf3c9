//! Role-based spawning: workers first, up to a cap, then haulers.
use vstd::prelude::*;
use crate::body::{BodyPart, body_cost, body_cost_spec};
use crate::naming::{
    lemma_decimal_injective, SpawnTally, count_with_prefix, count_prefixed, string_views, decimal, signed_decimal,
    format_role_name,
};

verus! {

/// Most workers that the spawner keeps alive.
pub const MAX_WORKERS: usize = 5;

/// Most haulers that the spawner keeps alive.
pub const MAX_HAULERS: usize = 2;

/// The roles that the spawner gives creeps.
#[derive(Clone, Copy, Debug, PartialEq, Eq, Structural)]
pub enum Role {
    Worker,
    Hauler,
}

/// The body that a role is spawned with.
pub open spec fn role_body(r: Role) -> Seq<BodyPart> {
    match r {
        Role::Worker => seq![BodyPart::Move, BodyPart::Carry, BodyPart::Work, BodyPart::Work],
        Role::Hauler => seq![BodyPart::Move, BodyPart::Move, BodyPart::Carry, BodyPart::Carry],
    }
}

/// The word that names a role.
pub open spec fn role_label(r: Role) -> Seq<char> {
    match r {
        Role::Worker => "Worker"@,
        Role::Hauler => "Hauler"@,
    }
}

/// The name that a creep of `role` gets from a spawn tally: role, tick, and
/// the number of creeps spawned before it in this tick, joined by `-`.
pub open spec fn role_creep_name(role: Role, tally: SpawnTally) -> Seq<char> {
    role_label(role) + seq!['-'] + decimal(tally.name_base as nat) + seq!['-'] + signed_decimal(
        tally.additional as int,
    )
}

/// The role to spawn next, if any: a worker while there are fewer than
/// `MAX_WORKERS` and the energy pays for one, else a hauler while there are
/// fewer than `MAX_HAULERS` and the energy pays for one.
pub open spec fn chosen_role(workers: int, haulers: int, energy: int) -> Option<Role> {
    if workers < MAX_WORKERS && energy >= body_cost_spec(role_body(Role::Worker)) {
        Some(Role::Worker)
    } else if haulers < MAX_HAULERS && energy >= body_cost_spec(role_body(Role::Hauler)) {
        Some(Role::Hauler)
    } else {
        None
    }
}

/// Names given in one tick never repeat: two creeps named from the same
/// tick differ in their names whenever they differ in role or in how many
/// creeps the tick had spawned before them.
pub proof fn law_spawn_names_distinct(r1: Role, t1: SpawnTally, r2: Role, t2: SpawnTally)
    requires
        t1.name_base == t2.name_base,
        t1.additional >= 0,
        t2.additional >= 0,
        r1 != r2 || t1.additional != t2.additional,
    ensures
        role_creep_name(r1, t1) != role_creep_name(r2, t2),
{
    reveal_strlit("Worker");
    reveal_strlit("Hauler");
    let n1 = role_creep_name(r1, t1);
    let n2 = role_creep_name(r2, t2);
    if n1 == n2 {
        if r1 != r2 {
            assert(n1[0] == role_label(r1)[0]);
            assert(n2[0] == role_label(r2)[0]);
        } else {
            let p = role_label(r1) + seq!['-'] + decimal(t1.name_base as nat) + seq!['-'];
            assert(n1 =~= p + decimal(t1.additional as nat));
            assert(n2 =~= p + decimal(t2.additional as nat));
            assert(n1.subrange(p.len() as int, n1.len() as int) =~= decimal(t1.additional as nat));
            assert(n2.subrange(p.len() as int, n2.len() as int) =~= decimal(t2.additional as nat));
            lemma_decimal_injective(t1.additional as nat, t2.additional as nat);
        }
    }
}

/// The spawner keeps to its caps: it picks a worker only while there are
/// fewer than `MAX_WORKERS`, and a hauler only while there are fewer than
/// `MAX_HAULERS` and no worker can be had.
pub proof fn law_role_caps(workers: int, haulers: int, energy: int)
    ensures
        chosen_role(workers, haulers, energy) == Some(Role::Worker) ==> workers < MAX_WORKERS
            && energy >= 300,
        chosen_role(workers, haulers, energy) == Some(Role::Hauler) ==> haulers < MAX_HAULERS
            && energy >= 200 && (workers >= MAX_WORKERS || energy < 300),
        chosen_role(workers, haulers, energy) is None ==> (workers >= MAX_WORKERS || energy < 300)
            && (haulers >= MAX_HAULERS || energy < 200),
{
    lemma_role_costs();
}

/// A worker costs 300 energy, a hauler 200.
pub proof fn lemma_role_costs()
    ensures
        body_cost_spec(role_body(Role::Worker)) == 300,
        body_cost_spec(role_body(Role::Hauler)) == 200,
{
    let w = role_body(Role::Worker);
    assert(w.drop_last() =~= seq![BodyPart::Move, BodyPart::Carry, BodyPart::Work]);
    assert(w.drop_last().drop_last() =~= seq![BodyPart::Move, BodyPart::Carry]);
    assert(w.drop_last().drop_last().drop_last() =~= seq![BodyPart::Move]);
    assert(w.drop_last().drop_last().drop_last().drop_last() =~= Seq::<BodyPart>::empty());
    let h = role_body(Role::Hauler);
    assert(h.drop_last() =~= seq![BodyPart::Move, BodyPart::Move, BodyPart::Carry]);
    assert(h.drop_last().drop_last() =~= seq![BodyPart::Move, BodyPart::Move]);
    assert(h.drop_last().drop_last().drop_last() =~= seq![BodyPart::Move]);
    assert(h.drop_last().drop_last().drop_last().drop_last() =~= Seq::<BodyPart>::empty());
    reveal_with_fuel(body_cost_spec, 5);
}

/// The body of a role, as parts to hand to the game.
pub fn role_body_parts(r: Role) -> (v: Vec<BodyPart>)
    ensures
        v@ == role_body(r),
{
    match r {
        Role::Worker => vec![BodyPart::Move, BodyPart::Carry, BodyPart::Work, BodyPart::Work],
        Role::Hauler => vec![BodyPart::Move, BodyPart::Move, BodyPart::Carry, BodyPart::Carry],
    }
}

/// The word that names a role.
pub fn role_name(r: Role) -> (s: &'static str)
    ensures
        s@ == role_label(r),
{
    match r {
        Role::Worker => "Worker",
        Role::Hauler => "Hauler",
    }
}

/// What the spawner knows at the start of a tick.
#[derive(Clone, Copy, Debug)]
pub struct SpawnRound {
    /// Living creeps whose name begins with `Worker-`.
    pub worker_count: usize,
    /// Living creeps whose name begins with `Hauler-`.
    pub hauler_count: usize,
    /// Names given so far in this tick.
    pub tally: SpawnTally,
}

/// What the spawner reads of one spawn building.
#[derive(Clone, Copy, Debug)]
pub struct SpawnerStatus {
    /// Whether the spawn is busy spawning a creep.
    pub spawning: bool,
    /// Energy available in the spawn's room.
    pub energy: u32,
}

/// An order to spawn a creep with this body under this name.
#[derive(Clone, Debug)]
pub struct SpawnOrder {
    pub body: Vec<BodyPart>,
    pub name: String,
}

/// Starts a tick: counts the living workers and haulers by their names.
pub fn begin_spawn_round(creep_names: &Vec<String>, time: u32) -> (r: SpawnRound)
    ensures
        r.worker_count == count_prefixed(string_views(creep_names@), "Worker-"@),
        r.hauler_count == count_prefixed(string_views(creep_names@), "Hauler-"@),
        r.tally.name_base == time,
        r.tally.additional == 0,
{
    let worker_count: usize = count_with_prefix(creep_names, "Worker-");
    let hauler_count: usize = count_with_prefix(creep_names, "Hauler-");
    SpawnRound { worker_count, hauler_count, tally: SpawnTally::new(time) }
}

/// Decides what one spawn building spawns this tick: nothing while it is
/// busy; otherwise the chosen role, if any, with its body and its name.
pub fn spawn_creep(round: &SpawnRound, spawner: SpawnerStatus) -> (r: Option<SpawnOrder>)
    ensures
        spawner.spawning ==> r is None,
        !spawner.spawning ==> match chosen_role(
            round.worker_count as int,
            round.hauler_count as int,
            spawner.energy as int,
        ) {
            None => r is None,
            Some(role) => r matches Some(o) && o.body@ == role_body(role) && o.name@
                == role_creep_name(role, round.tally),
        },
{
    if spawner.spawning {
        return None;
    }
    proof {
        lemma_role_costs();
    }
    let worker_body = role_body_parts(Role::Worker);
    let worker_cost: u32 = body_cost(&worker_body);
    let hauler_body = role_body_parts(Role::Hauler);
    let hauler_cost: u32 = body_cost(&hauler_body);
    let (role, body) = if round.worker_count < MAX_WORKERS && spawner.energy >= worker_cost {
        (Role::Worker, worker_body)
    } else if round.hauler_count < MAX_HAULERS && spawner.energy >= hauler_cost {
        (Role::Hauler, hauler_body)
    } else {
        return None;
    };
    let name = format_role_name(role_name(role), round.tally.name_base, round.tally.additional);
    Some(SpawnOrder { body, name })
}

} // verus!
