//! The table that remembers, from one tick to the next, which target each
//! creep works on, keyed by the creep's name.
use vstd::prelude::*;

verus! {

/// No name occurs twice among the entries.
pub open spec fn names_unique<T>(s: Seq<(String, T)>) -> bool {
    forall|i: int, j: int| 0 <= i < s.len() && 0 <= j < s.len() && i != j ==> #[trigger] s[i].0@ != #[trigger] s[j].0@
}

/// Whether some entry carries the name `k`.
pub open spec fn has_name<T>(s: Seq<(String, T)>, k: Seq<char>) -> bool {
    exists|i: int| 0 <= i < s.len() && #[trigger] s[i].0@ == k
}

/// The map from names to values that a list of entries stands for.
pub open spec fn entries_map<T>(s: Seq<(String, T)>) -> Map<Seq<char>, T> {
    Map::new(
        |k: Seq<char>| has_name(s, k),
        |k: Seq<char>| s[choose|i: int| 0 <= i < s.len() && #[trigger] s[i].0@ == k].1,
    )
}

/// With unique names, the entry at `i` is what the map holds for its name.
proof fn lemma_entry_in_map<T>(s: Seq<(String, T)>, i: int)
    requires
        names_unique(s),
        0 <= i < s.len(),
    ensures
        entries_map(s).dom().contains(s[i].0@),
        entries_map(s)[s[i].0@] == s[i].1,
{
    let k = s[i].0@;
    assert(has_name(s, k));
    let j = choose|j: int| 0 <= j < s.len() && #[trigger] s[j].0@ == k;
    assert(s[j].0@ == s[i].0@);
}

/// What the table's operations promise together: after storing `v` under
/// `k`, reading `k` gives `v`; after dropping `k`, reading `k` gives nothing;
/// and neither touches the entry of any other name.
pub proof fn law_table_read_after_write<T>(m: Map<Seq<char>, T>, k: Seq<char>, v: T, other: Seq<char>)
    ensures
        m.insert(k, v).dom().contains(k),
        m.insert(k, v)[k] == v,
        !m.remove(k).dom().contains(k),
        other != k ==> (m.insert(k, v).dom().contains(other) <==> m.dom().contains(other)),
        other != k ==> (m.remove(k).dom().contains(other) <==> m.dom().contains(other)),
        other != k && m.dom().contains(other) ==> m.insert(k, v)[other] == m[other] && m.remove(
            k,
        )[other] == m[other],
{
}

/// A table from creep names to targets; no name occurs twice.
pub struct TargetTable<T> {
    entries: Vec<(String, T)>,
}

impl<T> View for TargetTable<T> {
    type V = Map<Seq<char>, T>;

    closed spec fn view(&self) -> Map<Seq<char>, T> {
        entries_map(self.entries@)
    }
}

impl<T> TargetTable<T> {
    #[verifier::type_invariant]
    closed spec fn inv(self) -> bool {
        names_unique(self.entries@)
    }
}

impl<T: Copy> TargetTable<T> {
    /// An empty table.
    pub fn new() -> (t: Self)
        ensures
            t@ == Map::<Seq<char>, T>::empty(),
    {
        let t = TargetTable { entries: Vec::new() };
        assert(t@ =~= Map::<Seq<char>, T>::empty());
        t
    }

    /// Index of the entry named `name`, if there is one.
    fn position_of(&self, name: &String) -> (r: Option<usize>)
        ensures
            r is None <==> !has_name(self.entries@, name@),
            r matches Some(i) ==> i < self.entries@.len() && self.entries@[i as int].0@ == name@,
    {
        let n: usize = self.entries.len();
        let mut i: usize = 0;
        while i < n
            invariant
                n == self.entries@.len(),
                i <= n,
                forall|j: int| 0 <= j < i ==> #[trigger] self.entries@[j].0@ != name@,
            decreases n - i,
        {
            if self.entries[i].0 == *name {
                return Some(i);
            }
            i = i + 1;
        }
        None
    }

    /// The value stored under `name`, if any.
    pub fn get(&self, name: &String) -> (r: Option<T>)
        ensures
            r == (if self@.dom().contains(name@) { Some(self@[name@]) } else { None::<T> }),
    {
        proof {
            use_type_invariant(self);
        }
        match self.position_of(name) {
            Some(i) => {
                proof {
                    lemma_entry_in_map(self.entries@, i as int);
                }
                Some(self.entries[i].1)
            },
            None => None,
        }
    }

    /// Whether `name` has an entry.
    pub fn contains(&self, name: &String) -> (r: bool)
        ensures
            r == self@.dom().contains(name@),
    {
        self.position_of(name).is_some()
    }

    /// Stores `value` under `name`, replacing what was there.
    pub fn insert(&mut self, name: &String, value: T)
        ensures
            final(self)@ == old(self)@.insert(name@, value),
    {
        proof {
            use_type_invariant(&*self);
        }
        let ghost s = self.entries@;
        let pos = self.position_of(name);
        let mut entries: Vec<(String, T)> = Vec::new();
        std::mem::swap(&mut entries, &mut self.entries);
        assert(entries@ == s);
        match pos {
            Some(i) => {
                entries.set(i, (name.clone(), value));
                let ghost s2 = entries@;
                assert(s2 == s.update(i as int, (s2[i as int].0, value)));
                assert(names_unique(s2)) by {
                    assert forall|a: int, b: int|
                        0 <= a < s2.len() && 0 <= b < s2.len() && a != b implies #[trigger] s2[a].0@
                        != #[trigger] s2[b].0@ by {
                        assert(s[a].0@ != s[b].0@);
                    }
                }
                assert(entries_map(s2) =~= entries_map(s).insert(name@, value)) by {
                    lemma_entry_in_map(s2, i as int);
                    assert forall|k: Seq<char>|
                        #[trigger] entries_map(s).insert(name@, value).dom().contains(k) implies
                        entries_map(s2).dom().contains(k) && entries_map(s2)[k] == entries_map(
                        s).insert(name@, value)[k] by {
                        if k != name@ {
                            let j = choose|j: int| 0 <= j < s.len() && #[trigger] s[j].0@ == k;
                            lemma_entry_in_map(s, j);
                            lemma_entry_in_map(s2, j);
                        }
                    }
                    assert forall|k: Seq<char>| #[trigger]
                        entries_map(s2).dom().contains(k) implies entries_map(s).insert(
                        name@,
                        value,
                    ).dom().contains(k) by {
                        let j = choose|j: int| 0 <= j < s2.len() && #[trigger] s2[j].0@ == k;
                        if j != i {
                            assert(s[j].0@ == k);
                        }
                    }
                }
            },
            None => {
                entries.push((name.clone(), value));
                let ghost s2 = entries@;
                assert(names_unique(s2)) by {
                    assert forall|a: int, b: int|
                        0 <= a < s2.len() && 0 <= b < s2.len() && a != b implies #[trigger] s2[a].0@
                        != #[trigger] s2[b].0@ by {
                        if a < s.len() && b < s.len() {
                            assert(s[a].0@ != s[b].0@);
                        } else if a < s.len() {
                            assert(s[a].0@ == s2[a].0@);
                        } else {
                            assert(s[b].0@ == s2[b].0@);
                        }
                    }
                }
                assert(entries_map(s2) =~= entries_map(s).insert(name@, value)) by {
                    lemma_entry_in_map(s2, s.len() as int);
                    assert forall|k: Seq<char>|
                        #[trigger] entries_map(s).insert(name@, value).dom().contains(k) implies
                        entries_map(s2).dom().contains(k) && entries_map(s2)[k] == entries_map(
                        s).insert(name@, value)[k] by {
                        if k != name@ {
                            let j = choose|j: int| 0 <= j < s.len() && #[trigger] s[j].0@ == k;
                            lemma_entry_in_map(s, j);
                            lemma_entry_in_map(s2, j);
                        }
                    }
                    assert forall|k: Seq<char>| #[trigger]
                        entries_map(s2).dom().contains(k) implies entries_map(s).insert(
                        name@,
                        value,
                    ).dom().contains(k) by {
                        let j = choose|j: int| 0 <= j < s2.len() && #[trigger] s2[j].0@ == k;
                        if j < s.len() {
                            assert(s[j].0@ == k);
                        }
                    }
                }
            },
        }
        self.entries = entries;
    }

    /// Drops the entry of `name`, if there is one.
    pub fn remove(&mut self, name: &String)
        ensures
            final(self)@ == old(self)@.remove(name@),
    {
        proof {
            use_type_invariant(&*self);
        }
        let ghost s = self.entries@;
        match self.position_of(name) {
            Some(i) => {
                let mut entries: Vec<(String, T)> = Vec::new();
                std::mem::swap(&mut entries, &mut self.entries);
                entries.remove(i);
                let ghost s2 = entries@;
                assert(s2 == s.remove(i as int));
                assert(names_unique(s2)) by {
                    assert forall|a: int, b: int|
                        0 <= a < s2.len() && 0 <= b < s2.len() && a != b implies #[trigger] s2[a].0@
                        != #[trigger] s2[b].0@ by {
                        let sa = if a < i { a } else { a + 1 };
                        let sb = if b < i { b } else { b + 1 };
                        assert(s[sa].0@ != s[sb].0@);
                    }
                }
                assert(entries_map(s2) =~= entries_map(s).remove(name@)) by {
                    assert forall|k: Seq<char>|
                        #[trigger] entries_map(s).remove(name@).dom().contains(k) implies
                        entries_map(s2).dom().contains(k) && entries_map(s2)[k] == entries_map(
                        s).remove(name@)[k] by {
                        let j = choose|j: int| 0 <= j < s.len() && #[trigger] s[j].0@ == k;
                        lemma_entry_in_map(s, j);
                        if j < i {
                            lemma_entry_in_map(s2, j);
                        } else {
                            assert(j != i);
                            assert(s2[j - 1] == s[j]);
                            lemma_entry_in_map(s2, j - 1);
                        }
                    }
                    assert forall|k: Seq<char>| #[trigger]
                        entries_map(s2).dom().contains(k) implies entries_map(s).remove(
                        name@,
                    ).dom().contains(k) by {
                        let j = choose|j: int| 0 <= j < s2.len() && #[trigger] s2[j].0@ == k;
                        let sj = if j < i { j } else { j + 1 };
                        assert(s[sj].0@ == k);
                        assert(s[sj].0@ != s[i as int].0@);
                    }
                }
                self.entries = entries;
            },
            None => {
                assert(entries_map(s) =~= entries_map(s).remove(name@));
            },
        }
    }
}

} // verus!
