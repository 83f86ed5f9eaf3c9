//! Per-tick systems: a plain spawner and the cleanup of remembered creeps.
use vstd::prelude::*;
use crate::body::{BodyPart, body_cost, body_cost_spec};
use crate::game_logic::spawning::SpawnOrder;
use crate::naming::{lemma_decimal_injective, SpawnTally, decimal, signed_decimal, format_tick_name, string_views};

verus! {

/// The body that the plain spawner gives every creep.
pub open spec fn system_body() -> Seq<BodyPart> {
    seq![BodyPart::Move, BodyPart::Move, BodyPart::Carry, BodyPart::Work]
}

/// The name that the plain spawner gives: tick and number in the tick.
pub open spec fn tick_creep_name(tally: SpawnTally) -> Seq<char> {
    decimal(tally.name_base as nat) + seq!['-'] + signed_decimal(tally.additional as int)
}

/// The plain spawner's body costs 250 energy.
pub proof fn lemma_system_body_cost()
    ensures
        body_cost_spec(system_body()) == 250,
{
    let b = system_body();
    assert(b.drop_last() =~= seq![BodyPart::Move, BodyPart::Move, BodyPart::Carry]);
    assert(b.drop_last().drop_last() =~= seq![BodyPart::Move, BodyPart::Move]);
    assert(b.drop_last().drop_last().drop_last() =~= seq![BodyPart::Move]);
    assert(b.drop_last().drop_last().drop_last().drop_last() =~= Seq::<BodyPart>::empty());
    reveal_with_fuel(body_cost_spec, 5);
}

/// Decides what one spawn building spawns this tick: a creep with the plain
/// body whenever the room's energy pays for it.
pub fn spawn_creep_system(tally: &SpawnTally, energy: u32) -> (r: Option<SpawnOrder>)
    ensures
        r is Some <==> energy >= body_cost_spec(system_body()),
        r matches Some(o) ==> o.body@ == system_body() && o.name@ == tick_creep_name(*tally),
{
    proof {
        lemma_system_body_cost();
    }
    let body = vec![BodyPart::Move, BodyPart::Move, BodyPart::Carry, BodyPart::Work];
    let cost: u32 = body_cost(&body);
    if energy >= cost {
        let name = format_tick_name(tally.name_base, tally.additional);
        Some(SpawnOrder { body, name })
    } else {
        None
    }
}

/// Names that the plain spawner gives in one tick never repeat: they differ
/// whenever the number of creeps spawned before differs.
pub proof fn law_tick_names_distinct(t1: SpawnTally, t2: SpawnTally)
    requires
        t1.name_base == t2.name_base,
        t1.additional >= 0,
        t2.additional >= 0,
        t1.additional != t2.additional,
    ensures
        tick_creep_name(t1) != tick_creep_name(t2),
{
    let n1 = tick_creep_name(t1);
    let n2 = tick_creep_name(t2);
    if n1 == n2 {
        let p = decimal(t1.name_base as nat) + seq!['-'];
        assert(n1.subrange(p.len() as int, n1.len() as int) =~= decimal(t1.additional as nat));
        assert(n2.subrange(p.len() as int, n2.len() as int) =~= decimal(t2.additional as nat));
        lemma_decimal_injective(t1.additional as nat, t2.additional as nat);
    }
}

/// Whether the cleanup runs in this tick: once every 1000 ticks.
pub open spec fn cleanup_due(time: u32) -> bool {
    time % 1000 == 0
}

/// Whether the cleanup runs at tick `time`.
pub fn memory_cleanup_due(time: u32) -> (r: bool)
    ensures
        r == cleanup_due(time),
        r == (time % 1000 == 0),
{
    time % 1000 == 0
}

/// The cleanup runs exactly at the ticks that are multiples of 1000.
pub proof fn law_cleanup_every_thousand_ticks(time: u32)
    ensures
        cleanup_due(time) <==> time % 1000 == 0,
{
}

/// The remembered names that belong to no living creep, in their order.
pub open spec fn stale_names(remembered: Seq<Seq<char>>, alive: Seq<Seq<char>>) -> Seq<Seq<char>>
    decreases remembered.len(),
{
    if remembered.len() == 0 {
        Seq::empty()
    } else {
        let before = stale_names(remembered.drop_last(), alive);
        if alive.contains(remembered.last()) {
            before
        } else {
            before.push(remembered.last())
        }
    }
}

/// The cleanup deletes exactly the memories of dead creeps: a name is among
/// the stale names if and only if it is remembered and belongs to no living
/// creep.
pub proof fn law_stale_names_exact(remembered: Seq<Seq<char>>, alive: Seq<Seq<char>>, k: Seq<char>)
    ensures
        stale_names(remembered, alive).contains(k) <==> (remembered.contains(k) && !alive.contains(k)),
    decreases remembered.len(),
{
    if remembered.len() > 0 {
        let init = remembered.drop_last();
        law_stale_names_exact(init, alive, k);
        let before = stale_names(init, alive);
        if remembered.contains(k) {
            let i = choose|i: int| 0 <= i < remembered.len() && remembered[i] == k;
            if i < remembered.len() - 1 {
                assert(init[i] == k);
            }
        }
        if init.contains(k) {
            let i = choose|i: int| 0 <= i < init.len() && init[i] == k;
            assert(remembered[i] == k);
        }
        if !alive.contains(remembered.last()) {
            let after = before.push(remembered.last());
            assert(after[after.len() - 1] == remembered.last());
            if after.contains(k) {
                let i = choose|i: int| 0 <= i < after.len() && after[i] == k;
                if i < before.len() {
                    assert(before[i] == k);
                }
            }
            if before.contains(k) {
                let i = choose|i: int| 0 <= i < before.len() && before[i] == k;
                assert(after[i] == k);
            }
        }
    }
}

/// Whether `names` holds `name`.
pub fn contains_name(names: &Vec<String>, name: &String) -> (r: bool)
    ensures
        r == string_views(names@).contains(name@),
{
    let mut i: usize = 0;
    while i < names.len()
        invariant
            i <= names@.len(),
            forall|j: int| 0 <= j < i ==> #[trigger] names@[j]@ != name@,
        decreases names@.len() - i,
    {
        if names[i] == *name {
            assert(string_views(names@)[i as int] == name@);
            return true;
        }
        i = i + 1;
    }
    proof {
        if string_views(names@).contains(name@) {
            let j = choose|j: int| 0 <= j < names@.len() && string_views(names@)[j] == name@;
            assert(names@[j]@ == name@);
        }
    }
    false
}

/// The names of the creep memories to delete at tick `time`: none unless
/// the cleanup is due, else every remembered name that belongs to no living
/// creep, in the order remembered.
pub fn memory_cleanup_system(time: u32, alive: &Vec<String>, remembered: &Vec<String>) -> (r: Vec<String>)
    ensures
        string_views(r@) == if cleanup_due(time) {
            stale_names(string_views(remembered@), string_views(alive@))
        } else {
            Seq::<Seq<char>>::empty()
        },
        time % 1000 == 0 ==> string_views(r@) == stale_names(
            string_views(remembered@),
            string_views(alive@),
        ),
        time % 1000 != 0 ==> r@.len() == 0,
{
    let mut stale: Vec<String> = Vec::new();
    if !memory_cleanup_due(time) {
        assert(string_views(stale@) =~= Seq::<Seq<char>>::empty());
        return stale;
    }
    let ghost rem = string_views(remembered@);
    let ghost live = string_views(alive@);
    let mut i: usize = 0;
    while i < remembered.len()
        invariant
            i <= remembered@.len(),
            rem == string_views(remembered@),
            live == string_views(alive@),
            string_views(stale@) == stale_names(rem.take(i as int), live),
        decreases remembered@.len() - i,
    {
        proof {
            assert(rem.take(i + 1).drop_last() =~= rem.take(i as int));
            assert(rem.take(i + 1).last() == remembered@[i as int]@);
        }
        if !contains_name(alive, &remembered[i]) {
            let ghost before = string_views(stale@);
            stale.push(remembered[i].clone());
            assert(string_views(stale@) =~= before.push(remembered@[i as int]@));
        }
        i = i + 1;
    }
    proof {
        assert(rem.take(i as int) =~= rem);
    }
    stale
}

} // verus!
