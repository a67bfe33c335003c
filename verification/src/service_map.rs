//! A map from service names to base URLs, kept sorted by name.
use vstd::prelude::*;

verus! {

/// Whether `a` comes strictly before `b` in lexicographic character order
/// (the order of `str`'s `Ord`).
pub open spec fn str_lt(a: Seq<char>, b: Seq<char>) -> bool
    decreases a.len(),
{
    if a.len() == 0 {
        b.len() > 0
    } else if b.len() == 0 {
        false
    } else if a[0] != b[0] {
        (a[0] as int) < (b[0] as int)
    } else {
        str_lt(a.drop_first(), b.drop_first())
    }
}

/// No name sorts before itself.
pub proof fn lemma_str_lt_irreflexive(a: Seq<char>)
    ensures
        !str_lt(a, a),
    decreases a.len(),
{
    if a.len() > 0 {
        lemma_str_lt_irreflexive(a.drop_first());
    }
}

/// The order of names is transitive.
pub proof fn lemma_str_lt_transitive(a: Seq<char>, b: Seq<char>, c: Seq<char>)
    requires
        str_lt(a, b),
        str_lt(b, c),
    ensures
        str_lt(a, c),
    decreases a.len(),
{
    if a.len() > 0 && b.len() > 0 && c.len() > 0 && a[0] == b[0] && b[0] == c[0] {
        lemma_str_lt_transitive(a.drop_first(), b.drop_first(), c.drop_first());
    }
}

/// Of two distinct names, one sorts before the other.
pub proof fn lemma_str_lt_total(a: Seq<char>, b: Seq<char>)
    ensures
        str_lt(a, b) || str_lt(b, a) || a == b,
    decreases a.len(),
{
    if a.len() > 0 && b.len() > 0 {
        if a[0] == b[0] {
            lemma_str_lt_total(a.drop_first(), b.drop_first());
            if a.drop_first() == b.drop_first() {
                assert(a =~= seq![a[0]] + a.drop_first());
                assert(b =~= seq![b[0]] + b.drop_first());
            }
        } else {
            assert((a[0] as int) != (b[0] as int));
        }
    } else if a.len() == 0 && b.len() == 0 {
        assert(a =~= b);
    }
}

/// Exact character-sequence comparison: `Some(true)` when `a < b`,
/// `Some(false)` when `b < a`, `None` when equal.
fn str_order(a: &Vec<char>, b: &Vec<char>) -> (r: Option<bool>)
    ensures
        r == Some(true) <==> str_lt(a@, b@),
        r == Some(false) <==> str_lt(b@, a@),
        r is None <==> a@ == b@,
{
    let mut i: usize = 0;
    proof {
        lemma_str_lt_irreflexive(a@);
        lemma_str_lt_irreflexive(b@);
        assert(a@.skip(0) =~= a@);
        assert(b@.skip(0) =~= b@);
        assert(a@.take(0) =~= b@.take(0));
    }
    while i < a.len() && i < b.len()
        invariant
            i <= a.len(),
            i <= b.len(),
            a@.take(i as int) == b@.take(i as int),
            str_lt(a@, b@) == str_lt(a@.skip(i as int), b@.skip(i as int)),
            str_lt(b@, a@) == str_lt(b@.skip(i as int), a@.skip(i as int)),
        decreases a.len() - i,
    {
        if a[i] != b[i] {
            let x = a[i];
            let y = b[i];
            let less = x < y;
            proof {
                assert(a@.skip(i as int)[0] == a@[i as int]);
                assert(b@.skip(i as int)[0] == b@[i as int]);
                assert((x as int) != (y as int));
                if a@ == b@ {
                    assert(a@[i as int] == b@[i as int]);
                }
            }
            return Some(less);
        }
        proof {
            assert(a@.skip(i as int).drop_first() =~= a@.skip(i + 1));
            assert(b@.skip(i as int).drop_first() =~= b@.skip(i + 1));
            assert(a@.take(i + 1) =~= a@.take(i as int).push(a@[i as int]));
            assert(b@.take(i + 1) =~= b@.take(i as int).push(b@[i as int]));
        }
        i = i + 1;
    }
    proof {
        assert(a@.take(i as int) =~= a@.skip(0).take(i as int));
    }
    if a.len() == b.len() {
        proof {
            assert(a@ =~= a@.take(i as int));
            assert(b@ =~= b@.take(i as int));
        }
        None
    } else {
        proof {
            if a.len() < b.len() {
                assert(a@.skip(i as int).len() == 0);
                assert(b@.skip(i as int).len() > 0);
                assert(a@ != b@ ) by { assert(a@.len() != b@.len()); }
            } else {
                assert(b@.skip(i as int).len() == 0);
                assert(a@.skip(i as int).len() > 0);
                assert(a@ != b@ ) by { assert(a@.len() != b@.len()); }
            }
        }
        Some(a.len() < b.len())
    }
}

/// `n` is `o` with `(name, value)` stored at position `p`: replacing an
/// entry of the same name there, or inserted there when no entry has it.
pub open spec fn placed(
    o: Seq<(Seq<char>, Seq<char>)>,
    n: Seq<(Seq<char>, Seq<char>)>,
    p: int,
    name: Seq<char>,
    value: Seq<char>,
) -> bool {
    &&& 0 <= p <= o.len()
    &&& (forall|i: int| 0 <= i < p ==> str_lt(#[trigger] o[i].0, name))
    &&& if p < o.len() && o[p].0 == name {
        n == o.update(p, (name, value))
    } else {
        &&& (forall|i: int| p <= i < o.len() ==> str_lt(name, #[trigger] o[i].0))
        &&& n == o.insert(p, (name, value))
    }
}

/// The map of a list of entries: each name maps to the value of an entry
/// with that name.
pub open spec fn entries_map(e: Seq<(Seq<char>, Seq<char>)>) -> Map<Seq<char>, Seq<char>> {
    Map::new(
        |k: Seq<char>| exists|i: int| 0 <= i < e.len() && e[i].0 == k,
        |k: Seq<char>| e[choose|i: int| 0 <= i < e.len() && e[i].0 == k].1,
    )
}

/// No two entries of `e` have the same name.
pub open spec fn names_distinct(e: Seq<(Seq<char>, Seq<char>)>) -> bool {
    forall|i: int, j: int| 0 <= i < e.len() && 0 <= j < e.len() && i != j ==> #[trigger] e[i].0 != #[trigger] e[j].0
}

proof fn lemma_distinct_lookup(e: Seq<(Seq<char>, Seq<char>)>, i: int)
    requires
        names_distinct(e),
        0 <= i < e.len(),
    ensures
        entries_map(e).dom().contains(e[i].0),
        entries_map(e)[e[i].0] == e[i].1,
{
    let k = e[i].0;
    assert(exists|j: int| 0 <= j < e.len() && e[j].0 == k);
    let j = choose|j: int| 0 <= j < e.len() && e[j].0 == k;
    if j != i {
        assert(e[i].0 != e[j].0);
    }
}

proof fn lemma_sorted_distinct(e: Seq<(String, String)>)
    requires
        sorted_names(e),
    ensures
        names_distinct(e.map_values(|x: (String, String)| (x.0@, x.1@))),
{
    let v = e.map_values(|x: (String, String)| (x.0@, x.1@));
    assert forall|i: int, j: int| 0 <= i < v.len() && 0 <= j < v.len() && i != j implies #[trigger] v[i].0 != #[trigger] v[j].0 by {
        lemma_str_lt_irreflexive(e[i].0@);
        if i < j {
            assert(str_lt(e[i].0@, e[j].0@));
        } else {
            assert(str_lt(e[j].0@, e[i].0@));
        }
    }
}

/// Storing `(name, value)` as `placed` describes it sets `name` to `value`
/// in the map and leaves every other name as it was.
proof fn lemma_placed_map(
    o: Seq<(Seq<char>, Seq<char>)>,
    n: Seq<(Seq<char>, Seq<char>)>,
    p: int,
    name: Seq<char>,
    value: Seq<char>,
)
    requires
        placed(o, n, p, name, value),
        names_distinct(o),
        names_distinct(n),
    ensures
        entries_map(n) == entries_map(o).insert(name, value),
{
    let replace = p < o.len() && o[p].0 == name;
    // Where each entry of `o` stands in `n`.
    let at = |i: int| if replace || i < p { i } else { i + 1 };
    assert forall|i: int| 0 <= i < o.len() && o[i].0 != name implies
        0 <= #[trigger] at(i) < n.len() && n[at(i)] == o[i] by {}
    assert(0 <= p < n.len() && n[p] == (name, value));
    lemma_distinct_lookup(n, p);
    assert forall|k: Seq<char>| #[trigger] entries_map(n).dom().contains(k) <==> entries_map(o).insert(name, value).dom().contains(k) by {
        if entries_map(n).dom().contains(k) && k != name {
            let j = choose|j: int| 0 <= j < n.len() && n[j].0 == k;
            let i = if replace || j < p { j } else { j - 1 };
            assert(o[i].0 == k);
        }
        if entries_map(o).dom().contains(k) && k != name {
            let i = choose|i: int| 0 <= i < o.len() && o[i].0 == k;
            assert(n[at(i)].0 == k);
        }
    }
    assert forall|k: Seq<char>| #[trigger] entries_map(n).dom().contains(k) implies entries_map(n)[k] == entries_map(o).insert(name, value)[k] by {
        if k != name {
            let i = choose|i: int| 0 <= i < o.len() && o[i].0 == k;
            lemma_distinct_lookup(o, i);
            lemma_distinct_lookup(n, at(i));
        }
    }
    assert(entries_map(n) =~= entries_map(o).insert(name, value));
}

/// A finite map from names to values whose entries are kept in strictly
/// increasing order of name, as a `BTreeMap<String, String>` holds them.
#[derive(Debug, Clone, PartialEq, Eq)]
pub struct ServiceMap {
    entries: Vec<(String, String)>,
}

/// Whether the names of `e` are strictly increasing.
pub open spec fn sorted_names(e: Seq<(String, String)>) -> bool {
    forall|i: int, j: int| 0 <= i < j < e.len() ==> str_lt(#[trigger] e[i].0@, #[trigger] e[j].0@)
}

impl ServiceMap {
    /// The entries as character sequences, in name order.
    pub closed spec fn spec_entries(self) -> Seq<(Seq<char>, Seq<char>)> {
        self.entries@.map_values(|e: (String, String)| (e.0@, e.1@))
    }

    /// The entries are in strictly increasing order of name.
    pub closed spec fn wf(self) -> bool {
        sorted_names(self.entries@)
    }

    /// The map view: each name maps to its value.
    pub open spec fn spec_map(self) -> Map<Seq<char>, Seq<char>> {
        entries_map(self.spec_entries())
    }

    /// The empty map.
    pub fn new() -> (m: Self)
        ensures
            m.wf(),
            m.spec_entries() == Seq::<(Seq<char>, Seq<char>)>::empty(),
    {
        let m = ServiceMap { entries: Vec::new() };
        proof {
            assert(m.spec_entries() =~= Seq::<(Seq<char>, Seq<char>)>::empty());
        }
        m
    }

    /// A copy with the same entries.
    pub fn copy(&self) -> (m: Self)
        ensures
            m.spec_entries() == self.spec_entries(),
            m.wf() == self.wf(),
    {
        let mut entries: Vec<(String, String)> = Vec::new();
        let mut i: usize = 0;
        while i < self.entries.len()
            invariant
                i <= self.entries.len(),
                entries@.len() == i,
                forall|j: int| 0 <= j < i ==> (#[trigger] entries@[j]).0@ == self.entries@[j].0@
                    && entries@[j].1@ == self.entries@[j].1@,
            decreases self.entries.len() - i,
        {
            let k = self.entries[i].0.clone();
            let v = self.entries[i].1.clone();
            entries.push((k, v));
            i = i + 1;
        }
        let m = ServiceMap { entries };
        proof {
            assert(m.spec_entries() =~= self.spec_entries());
            assert(sorted_names(m.entries@) == sorted_names(self.entries@)) by {
                if sorted_names(self.entries@) {
                    assert forall|a: int, b: int| 0 <= a < b < m.entries@.len()
                        implies str_lt(#[trigger] m.entries@[a].0@, #[trigger] m.entries@[b].0@) by {
                        assert(str_lt(self.entries@[a].0@, self.entries@[b].0@));
                    }
                }
                if sorted_names(m.entries@) {
                    assert forall|a: int, b: int| 0 <= a < b < self.entries@.len()
                        implies str_lt(#[trigger] self.entries@[a].0@, #[trigger] self.entries@[b].0@) by {
                        assert(str_lt(m.entries@[a].0@, m.entries@[b].0@));
                    }
                }
            }
        }
        m
    }

    /// The number of entries.
    pub fn len(&self) -> (n: usize)
        ensures
            n == self.spec_entries().len(),
    {
        self.entries.len()
    }

    /// The entries, in name order.
    pub fn entries(&self) -> (e: &Vec<(String, String)>)
        ensures
            e@.map_values(|e: (String, String)| (e.0@, e.1@)) == self.spec_entries(),
    {
        &self.entries
    }

    /// The value for `name`, if there is one.
    pub fn get(&self, name: &str) -> (r: Option<&String>)
        requires
            self.wf(),
        ensures
            match r {
                Some(v) => (exists|i: int| 0 <= i < self.spec_entries().len()
                    && self.spec_entries()[i] == (name@, v@))
                    && self.spec_map().dom().contains(name@) && self.spec_map()[name@] == v@,
                None => (forall|i: int| 0 <= i < self.spec_entries().len()
                    ==> self.spec_entries()[i].0 != name@) && !self.spec_map().dom().contains(name@),
            },
    {
        let key = crate::text::chars_of(name);
        let mut i: usize = 0;
        while i < self.entries.len()
            invariant
                i <= self.entries.len(),
                key@ == name@,
                self.wf(),
                forall|j: int| 0 <= j < i ==> self.spec_entries()[j].0 != name@,
            decreases self.entries.len() - i,
        {
            let k = crate::text::chars_of(self.entries[i].0.as_str());
            if str_order(&k, &key).is_none() {
                proof {
                    assert(self.spec_entries()[i as int] == (self.entries@[i as int].0@, self.entries@[i as int].1@));
                    let k = choose|k: int| 0 <= k < self.spec_entries().len() && self.spec_entries()[k].0 == name@;
                    assert(self.spec_map().dom().contains(name@));
                    if k != i as int {
                        assert(self.spec_entries()[k] == (self.entries@[k].0@, self.entries@[k].1@));
                        if k < i as int {
                            assert(str_lt(self.entries@[k].0@, self.entries@[i as int].0@));
                        } else {
                            assert(str_lt(self.entries@[i as int].0@, self.entries@[k].0@));
                        }
                        lemma_str_lt_irreflexive(name@);
                    }
                }
                return Some(&self.entries[i].1);
            }
            i = i + 1;
        }
        None
    }

    /// Sets the value for `name`, replacing an earlier one.
    pub fn insert(&mut self, name: String, value: String)
        requires
            old(self).wf(),
        ensures
            final(self).wf(),
            exists|p: int| #[trigger] placed(old(self).spec_entries(), final(self).spec_entries(), p, name@, value@),
            final(self).spec_map() == old(self).spec_map().insert(name@, value@),
    {
        let key = crate::text::chars_of(name.as_str());
        let ghost o = self.entries@;
        let ghost os = self.spec_entries();
        let mut p: usize = 0;
        let mut searching = true;
        while searching && p < self.entries.len()
            invariant
                p <= self.entries.len(),
                self.entries@ == o,
                key@ == name@,
                sorted_names(o),
                forall|j: int| 0 <= j < p ==> str_lt(#[trigger] o[j].0@, name@),
                !searching ==> p < o.len() && !str_lt(o[p as int].0@, name@),
            decreases self.entries.len() - p, if searching { 1int } else { 0int },
        {
            let k = crate::text::chars_of(self.entries[p].0.as_str());
            let ord = str_order(&k, &key);
            if ord == Some(true) {
                p = p + 1;
            } else {
                searching = false;
            }
        }
        let replace = p < self.entries.len() && {
            let k = crate::text::chars_of(self.entries[p].0.as_str());
            str_order(&k, &key).is_none()
        };
        proof {
            assert forall|i: int| 0 <= i < o.len() implies #[trigger] os[i] == (o[i].0@, o[i].1@) by {}
        }
        if replace {
            self.entries.set(p, (name, value));
            proof {
                assert forall|i: int, j: int| 0 <= i < j < self.entries@.len()
                    implies str_lt(#[trigger] self.entries@[i].0@, #[trigger] self.entries@[j].0@) by {
                    assert(o[i].0@ == self.entries@[i].0@ || i == p);
                }
                assert(self.spec_entries() =~= os.update(p as int, (name@, value@)));
                assert(placed(os, self.spec_entries(), p as int, name@, value@));
            }
        } else {
            proof {
                if p < o.len() {
                    lemma_str_lt_total(o[p as int].0@, name@);
                    assert(str_lt(name@, o[p as int].0@));
                }
                assert forall|i: int| p <= i < o.len() implies str_lt(name@, #[trigger] o[i].0@) by {
                    if i > p {
                        lemma_str_lt_transitive(name@, o[p as int].0@, o[i].0@);
                    }
                }
            }
            self.entries.insert(p, (name, value));
            proof {
                let n = self.entries@;
                assert forall|i: int, j: int| 0 <= i < j < n.len()
                    implies str_lt(#[trigger] n[i].0@, #[trigger] n[j].0@) by {
                    if j < p {
                        assert(n[i] == o[i] && n[j] == o[j]);
                    } else if j == p {
                        assert(n[i] == o[i]);
                    } else if i == p {
                        assert(n[j] == o[j - 1]);
                    } else if i < p {
                        assert(n[i] == o[i] && n[j] == o[j - 1]);
                        lemma_str_lt_transitive(o[i].0@, name@, o[j - 1].0@);
                    } else {
                        assert(n[i] == o[i - 1] && n[j] == o[j - 1]);
                    }
                }
                assert(self.spec_entries() =~= os.insert(p as int, (name@, value@)));
                assert forall|i: int| p <= i < os.len() implies str_lt(name@, #[trigger] os[i].0) by {}
                assert forall|i: int| 0 <= i < p implies str_lt(#[trigger] os[i].0, name@) by {}
                assert(placed(os, self.spec_entries(), p as int, name@, value@));
            }
        }
        proof {
            lemma_sorted_distinct(o);
            lemma_sorted_distinct(self.entries@);
            lemma_placed_map(os, self.spec_entries(), p as int, name@, value@);
        }
    }
}

} // verus!
