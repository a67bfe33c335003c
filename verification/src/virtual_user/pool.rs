//! The idle virtual users of a pool, from which a random one is handed out
//! for each transaction and to which it returns afterwards.
use vstd::prelude::*;

verus! {

#[verifier::external_type_specification]
#[verifier::external_body]
pub struct ExStdRng(rand::rngs::StdRng);

/// Draws an index below `len` with `rand::Rng::random_range(0..len)`: it
/// panics on an empty range and otherwise gives a value in the range, which
/// depends on the generator's state.
#[verifier::external_body]
fn random_below(rng: &mut rand::rngs::StdRng, len: usize) -> (i: usize)
    requires
        len > 0,
    ensures
        i < len,
{
    rand::Rng::random_range(rng, 0..len)
}

/// The virtual users that are not running a transaction.
#[derive(Debug)]
pub struct IdleUsers<U> {
    users: Vec<U>,
}

impl<U> IdleUsers<U> {
    /// The idle users.
    pub closed spec fn spec_users(self) -> Seq<U> {
        self.users@
    }

    /// A pool whose users are all idle.
    pub fn new(users: Vec<U>) -> (p: Self)
        ensures
            p.spec_users() == users@,
    {
        IdleUsers { users }
    }

    /// How many users are idle.
    pub fn len(&self) -> (n: usize)
        ensures
            n == self.spec_users().len(),
    {
        self.users.len()
    }

    /// Hands out an idle user chosen by `rng`; the last idle user takes its
    /// place.
    pub fn take(&mut self, rng: &mut rand::rngs::StdRng) -> (u: U)
        requires
            old(self).spec_users().len() > 0,
        ensures
            exists|i: int| {
                &&& 0 <= i < old(self).spec_users().len()
                &&& u == old(self).spec_users()[i]
                &&& final(self).spec_users() == old(self).spec_users().update(i, old(self).spec_users().last()).drop_last()
            },
            took(old(self).spec_users(), u, final(self).spec_users()),
    {
        let index = random_below(rng, self.users.len());
        self.users.swap_remove(index)
    }

    /// Returns a user to the idle ones.
    pub fn put(&mut self, user: U)
        ensures
            final(self).spec_users() == old(self).spec_users().push(user),
    {
        self.users.push(user);
    }
}

/// Handing out a user and taking it back leaves the same users idle, only
/// in another order.
pub proof fn lemma_take_then_put_keeps_users<U>(before: Seq<U>, i: int, taken: U, after: Seq<U>)
    requires
        0 <= i < before.len(),
        taken == before[i],
        after == before.update(i, before.last()).drop_last().push(taken),
    ensures
        after.to_multiset() == before.to_multiset(),
{
    broadcast use vstd::multiset::group_multiset_axioms;

    let n = before.len() - 1;
    let last = before.last();
    let u = before.update(i, last);
    let rest = u.drop_last();
    assert(rest =~= u.remove(n));
    vstd::seq_lib::to_multiset_build(rest, taken);
    vstd::seq_lib::to_multiset_remove(u, n);
    vstd::seq_lib::to_multiset_update(before, i, last);
    vstd::seq_lib::to_multiset_contains(before, taken);
    assert(u[n] == last);
    let m = before.to_multiset();
    assert(after.to_multiset() =~= m.insert(last).remove(taken).remove(last).insert(taken));
    assert(m.insert(last).remove(taken).remove(last).insert(taken) =~= m);
}

/// Handing out a user: the user handed out and the users still idle are,
/// together, the users that were idle.
pub proof fn lemma_take_keeps_users<U>(before: Seq<U>, i: int, taken: U, after: Seq<U>)
    requires
        0 <= i < before.len(),
        taken == before[i],
        after == before.update(i, before.last()).drop_last(),
    ensures
        after.to_multiset().insert(taken) == before.to_multiset(),
{
    lemma_take_then_put_keeps_users(before, i, taken, after.push(taken));
    vstd::seq_lib::to_multiset_build(after, taken);
}

/// Whether handing out a user from the idle users `before` gave `u` and
/// left `after`, as `take` ensures.
pub open spec fn took<U>(before: Seq<U>, u: U, after: Seq<U>) -> bool {
    exists|i: int| 0 <= i < before.len() && u == before[i] && after == before.update(i, before.last()).drop_last()
}

/// Users handed out one after another, none put back, are distinct users
/// of the pool: every user handed out was idle at the start, no user is
/// handed out twice where the idle users were distinct at the start, and
/// the users handed out and those still idle are together the users idle
/// at the start. `idle[k]` are the idle users before the `k`-th hand-out,
/// which gives `taken[k]` and leaves `idle[k + 1]`.
pub proof fn lemma_takes_are_distinct<U>(idle: Seq<Seq<U>>, taken: Seq<U>)
    requires
        idle.len() == taken.len() + 1,
        forall|k: int| 0 <= k < taken.len() ==> #[trigger] took(idle[k], taken[k], idle[k + 1]),
    ensures
        taken.to_multiset().add(idle.last().to_multiset()) == idle[0].to_multiset(),
        forall|k: int| 0 <= k < taken.len() ==> idle[0].contains(#[trigger] taken[k]),
        idle[0].no_duplicates() ==> taken.no_duplicates(),
    decreases taken.len(),
{
    broadcast use vstd::multiset::group_multiset_axioms;
    broadcast use vstd::seq_lib::to_multiset_build;
    broadcast use vstd::seq_lib::to_multiset_contains;

    let m0 = idle[0].to_multiset();
    if taken.len() == 0 {
        assert(taken.to_multiset() =~= vstd::multiset::Multiset::empty());
        assert(taken.to_multiset().add(idle.last().to_multiset()) =~= m0);
    } else {
        let n = taken.len() - 1;
        let t0 = taken.drop_last();
        let i0 = idle.drop_last();
        assert forall|k: int| 0 <= k < t0.len() implies #[trigger] took(i0[k], t0[k], i0[k + 1]) by {
            assert(i0[k + 1] == idle[k + 1] && i0[k] == idle[k] && t0[k] == taken[k]);
            assert(took(idle[k], taken[k], idle[k + 1]));
        }
        lemma_takes_are_distinct(i0, t0);
        assert(took(idle[n], taken[n], idle[n + 1]));
        let i = choose|i: int| 0 <= i < idle[n].len() && taken[n] == idle[n][i]
            && idle[n + 1] == idle[n].update(i, idle[n].last()).drop_last();
        lemma_take_keeps_users(idle[n], i, taken[n], idle[n + 1]);
        assert(taken =~= t0.push(taken[n]));
        assert(i0.last() == idle[n]);
        assert(idle.last() == idle[n + 1]);
        assert(taken.to_multiset().add(idle.last().to_multiset()) =~= m0);
        assert forall|k: int| 0 <= k < taken.len() implies idle[0].contains(#[trigger] taken[k]) by {
            assert(taken.to_multiset().count(taken[k]) > 0);
            assert(m0.count(taken[k]) > 0);
        }
        if idle[0].no_duplicates() {
            idle[0].lemma_multiset_has_no_duplicates();
            assert forall|x: U| taken.to_multiset().contains(x) implies taken.to_multiset().count(x) == 1 by {
                assert(m0.count(x) >= taken.to_multiset().count(x));
                assert(m0.contains(x));
            }
            taken.lemma_multiset_has_no_duplicates_conv();
        }
    }
}

} // verus!
