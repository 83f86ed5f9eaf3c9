//! Body parts and what they cost to spawn.
use vstd::prelude::*;

verus! {

/// The body part types of the game.
#[derive(Clone, Copy, Debug, PartialEq, Eq, Structural)]
pub enum BodyPart {
    Move,
    Work,
    Carry,
    Attack,
    RangedAttack,
    Tough,
    Heal,
    Claim,
}

/// Energy that one part costs (the game's `BODYPART_COST` table).
pub open spec fn part_cost_spec(p: BodyPart) -> u32 {
    match p {
        BodyPart::Move => 50,
        BodyPart::Work => 100,
        BodyPart::Carry => 50,
        BodyPart::Attack => 80,
        BodyPart::RangedAttack => 150,
        BodyPart::Tough => 10,
        BodyPart::Heal => 250,
        BodyPart::Claim => 600,
    }
}

/// Energy that a whole body costs: the sum over its parts.
pub open spec fn body_cost_spec(body: Seq<BodyPart>) -> int
    decreases body.len(),
{
    if body.len() == 0 {
        0
    } else {
        body_cost_spec(body.drop_last()) + part_cost_spec(body.last())
    }
}

/// `screeps::Part::cost`: the contract claims the `BODYPART_COST` table that
/// the crate's source spells out, part by part.
#[verifier::external_body]
pub(crate) fn part_cost(p: BodyPart) -> (c: u32)
    ensures
        c == part_cost_spec(p),
{
    let part = match p {
        BodyPart::Move => screeps::Part::Move,
        BodyPart::Work => screeps::Part::Work,
        BodyPart::Carry => screeps::Part::Carry,
        BodyPart::Attack => screeps::Part::Attack,
        BodyPart::RangedAttack => screeps::Part::RangedAttack,
        BodyPart::Tough => screeps::Part::Tough,
        BodyPart::Heal => screeps::Part::Heal,
        BodyPart::Claim => screeps::Part::Claim,
    };
    part.cost()
}

/// Energy that `body` costs to spawn.
pub fn body_cost(body: &Vec<BodyPart>) -> (c: u32)
    requires
        body_cost_spec(body@) <= u32::MAX,
    ensures
        c == body_cost_spec(body@),
{
    let mut total: u32 = 0;
    let mut i: usize = 0;
    while i < body.len()
        invariant
            i <= body@.len(),
            total == body_cost_spec(body@.take(i as int)),
            body_cost_spec(body@) <= u32::MAX,
        decreases body@.len() - i,
    {
        proof {
            assert(body@.take(i + 1).drop_last() =~= body@.take(i as int));
            lemma_body_cost_prefix_bounded(body@, i + 1);
        }
        let c: u32 = part_cost(body[i]);
        total = total + c;
        i = i + 1;
    }
    proof {
        assert(body@.take(i as int) =~= body@);
    }
    total
}

/// A prefix of a body costs no more than the body.
proof fn lemma_body_cost_prefix_bounded(body: Seq<BodyPart>, n: int)
    requires
        0 <= n <= body.len(),
    ensures
        body_cost_spec(body.take(n)) <= body_cost_spec(body),
    decreases body.len(),
{
    if n < body.len() {
        assert(body.drop_last().take(n) =~= body.take(n));
        lemma_body_cost_prefix_bounded(body.drop_last(), n);
    } else {
        assert(body.take(n) =~= body);
    }
}

} // verus!
