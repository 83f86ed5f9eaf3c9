//! Creep names: how they are built at spawn time, and how a role is read
//! back from a name's prefix.
use vstd::prelude::*;

verus! {

/// The character of a decimal digit.
pub open spec fn digit_char(d: int) -> char {
    if d == 0 {
        '0'
    } else if d == 1 {
        '1'
    } else if d == 2 {
        '2'
    } else if d == 3 {
        '3'
    } else if d == 4 {
        '4'
    } else if d == 5 {
        '5'
    } else if d == 6 {
        '6'
    } else if d == 7 {
        '7'
    } else if d == 8 {
        '8'
    } else {
        '9'
    }
}

/// Decimal notation of a natural number, without leading zeros.
pub open spec fn decimal(n: nat) -> Seq<char>
    decreases n,
{
    if n < 10 {
        seq![digit_char(n as int)]
    } else {
        decimal(n / 10).push(digit_char((n % 10) as int))
    }
}

/// A decimal numeral has at least one digit, and two once the number
/// reaches ten.
pub proof fn lemma_decimal_len(n: nat)
    ensures
        decimal(n).len() >= 1,
        n >= 10 ==> decimal(n).len() >= 2,
    decreases n,
{
    if n >= 10 {
        lemma_decimal_len(n / 10);
    }
}

/// Different numbers have different decimal numerals.
pub proof fn lemma_decimal_injective(a: nat, b: nat)
    requires
        decimal(a) == decimal(b),
    ensures
        a == b,
    decreases a,
{
    lemma_decimal_len(a);
    lemma_decimal_len(b);
    if a < 10 && b < 10 {
        assert(decimal(a)[0] == digit_char(a as int));
        assert(decimal(b)[0] == digit_char(b as int));
    } else if a < 10 || b < 10 {
        assert(decimal(a).len() != decimal(b).len());
    } else {
        let da = decimal(a);
        let db = decimal(b);
        assert(da.last() == digit_char((a % 10) as int));
        assert(db.last() == digit_char((b % 10) as int));
        assert(da.drop_last() =~= decimal(a / 10));
        assert(db.drop_last() =~= decimal(b / 10));
        lemma_decimal_injective(a / 10, b / 10);
    }
}

/// Decimal notation of an integer: a minus sign before negative numbers.
pub open spec fn signed_decimal(v: int) -> Seq<char> {
    if v < 0 {
        seq!['-'] + decimal((-v) as nat)
    } else {
        decimal(v as nat)
    }
}

/// `format!("{}-{}-{}", role, base, n)`: the contract claims that integers
/// are written in decimal, as `Display` for `u32` and `i32` does.
#[verifier::external_body]
pub(crate) fn format_role_name(role: &str, base: u32, n: i32) -> (s: String)
    ensures
        s@ == role@ + seq!['-'] + decimal(base as nat) + seq!['-'] + signed_decimal(n as int),
{
    format!("{}-{}-{}", role, base, n)
}

/// `format!("{}-{}", base, n)`: the contract claims that integers are
/// written in decimal, as `Display` for `u32` and `i32` does.
#[verifier::external_body]
pub(crate) fn format_tick_name(base: u32, n: i32) -> (s: String)
    ensures
        s@ == decimal(base as nat) + seq!['-'] + signed_decimal(n as int),
{
    format!("{}-{}", base, n)
}

/// Numbering of the creeps spawned in one tick: the tick number and how many
/// spawns have succeeded so far in this tick.
#[derive(Clone, Copy, Debug, PartialEq, Eq, Structural)]
pub struct SpawnTally {
    /// The game tick, the common part of every name given in it.
    pub name_base: u32,
    /// How many creeps this tick has spawned so far.
    pub additional: i32,
}

impl SpawnTally {
    /// A tally for tick `time`, with nothing spawned yet.
    pub fn new(time: u32) -> (t: SpawnTally)
        ensures
            t.name_base == time,
            t.additional == 0,
    {
        SpawnTally { name_base: time, additional: 0 }
    }

    /// Counts the answer to a spawn order: one more when it succeeded.
    pub fn record(&mut self, spawned: bool)
        requires
            spawned ==> old(self).additional < i32::MAX,
        ensures
            final(self).name_base == old(self).name_base,
            final(self).additional == old(self).additional + if spawned {
                1int
            } else {
                0int
            },
    {
        if spawned {
            self.additional = self.additional + 1;
        }
    }
}

/// Whether `s` begins with `prefix`.
pub fn has_prefix(s: &str, prefix: &str) -> (r: bool)
    ensures
        r == prefix@.is_prefix_of(s@),
{
    let n: usize = s.unicode_len();
    let m: usize = prefix.unicode_len();
    if m > n {
        return false;
    }
    let mut i: usize = 0;
    while i < m
        invariant
            m == prefix@.len(),
            n == s@.len(),
            m <= n,
            i <= m,
            forall|j: int| 0 <= j < i ==> prefix@[j] == s@[j],
        decreases m - i,
    {
        if s.get_char(i) != prefix.get_char(i) {
            return false;
        }
        i = i + 1;
    }
    proof {
        assert(prefix@ =~= s@.subrange(0, m as int));
    }
    true
}

/// How many of `names` begin with `prefix`.
pub open spec fn count_prefixed(names: Seq<Seq<char>>, prefix: Seq<char>) -> nat
    decreases names.len(),
{
    if names.len() == 0 {
        0
    } else {
        count_prefixed(names.drop_last(), prefix) + if prefix.is_prefix_of(names.last()) {
            1nat
        } else {
            0nat
        }
    }
}

/// The views of a list of strings.
pub open spec fn string_views(v: Seq<String>) -> Seq<Seq<char>> {
    v.map_values(|s: String| s@)
}

/// Counts the names that begin with `prefix`.
pub fn count_with_prefix(names: &Vec<String>, prefix: &str) -> (c: usize)
    ensures
        c == count_prefixed(string_views(names@), prefix@),
{
    let mut c: usize = 0;
    let mut i: usize = 0;
    while i < names.len()
        invariant
            i <= names@.len(),
            c == count_prefixed(string_views(names@).take(i as int), prefix@),
            c <= i,
        decreases names@.len() - i,
    {
        proof {
            assert(string_views(names@).take(i + 1).drop_last() =~= string_views(names@).take(
                i as int,
            ));
        }
        if has_prefix(names[i].as_str(), prefix) {
            c = c + 1;
        }
        i = i + 1;
    }
    proof {
        assert(string_views(names@).take(i as int) =~= string_views(names@));
    }
    c
}

} // verus!
