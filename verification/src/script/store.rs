//! The key-value store a script's functions share.
//!
//! A script reads and writes the store through `store:get(name)` and
//! `store:set(name, value)`; the store keeps the last value written under
//! each name. `V` is the runtime's value type.
use vstd::prelude::*;

verus! {

/// Whether no name occurs twice among `e`.
pub open spec fn names_unique<V>(e: Seq<(String, V)>) -> bool {
    forall|i: int, j: int| 0 <= i < j < e.len() ==> (#[trigger] e[i]).0@ != (#[trigger] e[j]).0@
}

/// The value stored last under each name.
pub struct Store<V> {
    entries: Vec<(String, V)>,
}

impl<V> Store<V> {
    /// What the store holds: each name mapped to its value.
    pub closed spec fn spec_map(self) -> Map<Seq<char>, V> {
        Map::new(
            |k: Seq<char>| exists|i: int| 0 <= i < self.entries@.len() && self.entries@[i].0@ == k,
            |k: Seq<char>| self.entries@[choose|i: int| 0 <= i < self.entries@.len() && self.entries@[i].0@ == k].1,
        )
    }

    /// No name is stored twice.
    pub closed spec fn wf(self) -> bool {
        names_unique(self.entries@)
    }

    /// An empty store.
    pub fn new() -> (s: Self)
        ensures
            s.wf(),
            s.spec_map() == Map::<Seq<char>, V>::empty(),
    {
        let s = Store { entries: Vec::new() };
        proof {
            assert(s.spec_map() =~= Map::<Seq<char>, V>::empty());
        }
        s
    }

    fn position(&self, name: &str) -> (r: Option<usize>)
        requires
            self.wf(),
        ensures
            match r {
                Some(i) => i < self.entries@.len() && self.entries@[i as int].0@ == name@,
                None => forall|i: int| 0 <= i < self.entries@.len() ==> self.entries@[i].0@ != name@,
            },
    {
        let key = name.to_owned();
        let mut i: usize = 0;
        while i < self.entries.len()
            invariant
                i <= self.entries.len(),
                key@ == name@,
                forall|j: int| 0 <= j < i ==> self.entries@[j].0@ != name@,
            decreases self.entries.len() - i,
        {
            if self.entries[i].0 == key {
                return Some(i);
            }
            i = i + 1;
        }
        None
    }

    proof fn lemma_at_position(self, i: int)
        requires
            self.wf(),
            0 <= i < self.entries@.len(),
        ensures
            self.spec_map().dom().contains(self.entries@[i].0@),
            self.spec_map()[self.entries@[i].0@] == self.entries@[i].1,
    {
        let k = self.entries@[i].0@;
        assert(self.spec_map().dom().contains(k));
        let c = choose|c: int| 0 <= c < self.entries@.len() && self.entries@[c].0@ == k;
        if c != i {
            if c < i {
                assert(self.entries@[c].0@ != self.entries@[i].0@);
            } else {
                assert(self.entries@[i].0@ != self.entries@[c].0@);
            }
        }
    }

    /// The value stored under `name`, if any.
    pub fn get(&self, name: &str) -> (r: Option<&V>)
        requires
            self.wf(),
        ensures
            match r {
                Some(v) => self.spec_map().dom().contains(name@) && self.spec_map()[name@] == *v,
                None => !self.spec_map().dom().contains(name@),
            },
    {
        match self.position(name) {
            Some(i) => {
                proof {
                    self.lemma_at_position(i as int);
                }
                Some(&self.entries[i].1)
            },
            None => None,
        }
    }

    /// Stores `value` under `name`, replacing what was stored under it.
    pub fn set(&mut self, name: &str, value: V)
        requires
            old(self).wf(),
        ensures
            final(self).wf(),
            final(self).spec_map() == old(self).spec_map().insert(name@, value),
    {
        let ghost before = self.entries@;
        match self.position(name) {
            Some(i) => {
                let key = name.to_owned();
                self.entries.set(i, (key, value));
                proof {
                    let after = self.entries@;
                    assert(names_unique(after)) by {
                        assert forall|a: int, b: int| 0 <= a < b < after.len() implies (#[trigger] after[a]).0@ != (#[trigger] after[b]).0@ by {
                            assert(before[a].0@ != before[b].0@);
                        }
                    }
                    assert forall|k: Seq<char>| #[trigger] self.spec_map().dom().contains(k) == old(self).spec_map().insert(name@, value).dom().contains(k) by {
                        if exists|c: int| 0 <= c < before.len() && before[c].0@ == k {
                            let c = choose|c: int| 0 <= c < before.len() && before[c].0@ == k;
                            assert(after[c].0@ == k);
                        }
                        if exists|c: int| 0 <= c < after.len() && after[c].0@ == k {
                            let c = choose|c: int| 0 <= c < after.len() && after[c].0@ == k;
                            assert(before[c].0@ == k);
                        }
                    }
                    assert forall|k: Seq<char>| #[trigger] self.spec_map().dom().contains(k) implies self.spec_map()[k] == old(self).spec_map().insert(name@, value)[k] by {
                        let c = choose|c: int| 0 <= c < after.len() && after[c].0@ == k;
                        self.lemma_at_position(c);
                        if c != i as int {
                            assert(before[c].0@ == k);
                            old(self).lemma_at_position(c);
                        }
                    }
                    assert(self.spec_map() =~= old(self).spec_map().insert(name@, value));
                }
            },
            None => {
                let key = name.to_owned();
                self.entries.push((key, value));
                proof {
                    let after = self.entries@;
                    let n = before.len() as int;
                    assert(names_unique(after)) by {
                        assert forall|a: int, b: int| 0 <= a < b < after.len() implies (#[trigger] after[a]).0@ != (#[trigger] after[b]).0@ by {
                            if b < n {
                                assert(before[a].0@ != before[b].0@);
                            }
                        }
                    }
                    assert forall|k: Seq<char>| #[trigger] self.spec_map().dom().contains(k) == old(self).spec_map().insert(name@, value).dom().contains(k) by {
                        if exists|c: int| 0 <= c < before.len() && before[c].0@ == k {
                            let c = choose|c: int| 0 <= c < before.len() && before[c].0@ == k;
                            assert(after[c].0@ == k);
                        }
                        if k == name@ {
                            assert(after[n].0@ == k);
                        }
                    }
                    assert forall|k: Seq<char>| #[trigger] self.spec_map().dom().contains(k) implies self.spec_map()[k] == old(self).spec_map().insert(name@, value)[k] by {
                        let c = choose|c: int| 0 <= c < after.len() && after[c].0@ == k;
                        self.lemma_at_position(c);
                        if c != n {
                            assert(before[c].0@ == k);
                            old(self).lemma_at_position(c);
                        }
                    }
                    assert(self.spec_map() =~= old(self).spec_map().insert(name@, value));
                }
            },
        }
    }
}

/// A read gives back the last value written under the same name, and a
/// write under one name leaves every other name's value as it was.
pub proof fn lemma_read_after_write<V>(before: Store<V>, after: Store<V>, name: Seq<char>, value: V, other: Seq<char>)
    requires
        after.spec_map() == before.spec_map().insert(name, value),
    ensures
        after.spec_map().dom().contains(name),
        after.spec_map()[name] == value,
        other != name ==> after.spec_map().dom().contains(other) == before.spec_map().dom().contains(other),
        other != name && before.spec_map().dom().contains(other) ==> after.spec_map()[other] == before.spec_map()[other],
{
}

} // verus!
