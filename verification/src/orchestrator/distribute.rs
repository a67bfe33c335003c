//! Splitting the load profile across load generators.
use vstd::prelude::*;
use crate::config::{LoadProfileConfig, LoadStepConfig};

verus! {

/// The share of `total` requests that generator `index` sends when they
/// are split over `divisor` generators: the base share, plus one for the
/// first `total % divisor` generators.
pub open spec fn share(total: u32, divisor: usize, index: int) -> u32 {
    let d = divisor as u32;
    let base = total / d;
    let remainder = total % d;
    if ((index as usize) as u32) < remainder { (base + 1) as u32 } else { base }
}

/// `profiles` is the split of the steps `steps` over `n` generators: one
/// profile per generator, with the same deadlines as `steps` and generator
/// `g`'s share of each count.
pub open spec fn is_distribution(steps: Seq<LoadStepConfig>, n: usize, profiles: Seq<LoadProfileConfig>) -> bool {
    &&& profiles.len() == n
    &&& forall|g: int| 0 <= g < n ==> #[trigger] profiles[g].steps.len() == steps.len()
    &&& forall|g: int, s: int| 0 <= g < n && 0 <= s < steps.len() ==>
        (#[trigger] profiles[g].steps[s]) == (LoadStepConfig {
            deadline: steps[s].deadline,
            count: share(steps[s].count, n, g),
        })
}

/// The shares of the first `k` generators.
pub open spec fn shares(total: u32, divisor: usize, k: nat) -> Seq<u32> {
    Seq::new(k, |i: int| share(total, divisor, i))
}

/// The sum of a sequence of counts.
pub open spec fn sum_counts(s: Seq<u32>) -> int
    decreases s.len(),
{
    if s.len() == 0 { 0 } else { sum_counts(s.drop_last()) + s.last() }
}

fn share_of(total: u32, divisor: usize, index: usize) -> (c: u32)
    requires
        divisor as u32 != 0,
    ensures
        c == share(total, divisor, index as int),
{
    let d = divisor as u32;
    let base = total / d;
    let remainder = total % d;
    if (index as u32) < remainder {
        assert(base < u32::MAX) by (nonlinear_arith)
            requires
                base == total / d,
                remainder == total % d,
                remainder > 0,
                d > 0,
        {
            assert(total == d * base + remainder);
            assert(base <= d * base);
        }
        base + 1
    } else {
        base
    }
}

/// Splits `total` requests over `divisor` generators as evenly as
/// possible; the first `total % divisor` generators send one more.
pub fn distribute_count(total: u32, divisor: usize) -> (counts: Vec<u32>)
    requires
        divisor as u32 != 0,
    ensures
        counts.len() == divisor,
        forall|i: int| 0 <= i < divisor ==> counts[i] == share(total, divisor, i),
{
    let mut counts: Vec<u32> = Vec::new();
    let mut i: usize = 0;
    while i < divisor
        invariant
            i <= divisor,
            divisor as u32 != 0,
            counts.len() == i,
            forall|j: int| 0 <= j < i ==> counts[j] == share(total, divisor, j),
        decreases divisor - i,
    {
        counts.push(share_of(total, divisor, i));
        i = i + 1;
    }
    counts
}

/// Splits every step of `profile` over `num_generators` generators: each
/// generator gets a profile with the same deadlines and its share of each
/// step's count.
pub fn distribute_profile(profile: &LoadProfileConfig, num_generators: usize) -> (profiles: Vec<LoadProfileConfig>)
    requires
        profile.steps.len() == 0 || num_generators as u32 != 0,
    ensures
        is_distribution(profile.steps@, num_generators, profiles@),
{
    let mut profiles: Vec<LoadProfileConfig> = Vec::new();
    let mut g: usize = 0;
    while g < num_generators
        invariant
            g <= num_generators,
            profile.steps.len() == 0 || num_generators as u32 != 0,
            profiles.len() == g,
            forall|h: int| 0 <= h < g ==> #[trigger] profiles[h].steps.len() == profile.steps.len(),
            forall|h: int, s: int| 0 <= h < g && 0 <= s < profile.steps.len() ==>
                (#[trigger] profiles[h].steps[s]) == (LoadStepConfig {
                    deadline: profile.steps[s].deadline,
                    count: share(profile.steps[s].count, num_generators, h),
                }),
        decreases num_generators - g,
    {
        let mut steps: Vec<LoadStepConfig> = Vec::new();
        let mut s: usize = 0;
        while s < profile.steps.len()
            invariant
                s <= profile.steps.len(),
                profile.steps.len() == 0 || num_generators as u32 != 0,
                steps.len() == s,
                forall|t: int| 0 <= t < s ==> (#[trigger] steps[t]) == (LoadStepConfig {
                    deadline: profile.steps[t].deadline,
                    count: share(profile.steps[t].count, num_generators, g as int),
                }),
            decreases profile.steps.len() - s,
        {
            let step = profile.steps[s];
            let count = share_of(step.count, num_generators, g);
            steps.push(LoadStepConfig { deadline: step.deadline, count });
            s = s + 1;
        }
        profiles.push(LoadProfileConfig { steps });
        g = g + 1;
    }
    profiles
}

proof fn lemma_base_below_max(total: u32, d: u32)
    requires
        d > 0,
    ensures
        total % d > 0 ==> total / d < u32::MAX,
        total % d < d,
{
    if total % d > 0 {
        assert(total / d < u32::MAX) by (nonlinear_arith)
            requires
                total % d > 0,
                d > 0,
        {
            assert(total == d * (total / d) + total % d);
            assert(total / d <= d * (total / d));
        }
    }
}

proof fn lemma_shares_prefix_sum(total: u32, divisor: usize, k: nat)
    requires
        0 < divisor <= u32::MAX,
        k <= divisor,
    ensures
        sum_counts(shares(total, divisor, k)) == k * (total / (divisor as u32)) + (if k < total % (divisor as u32) {
            k as int
        } else {
            (total % (divisor as u32)) as int
        }),
    decreases k,
{
    let d = divisor as u32;
    let base = total / d;
    lemma_base_below_max(total, d);
    if k > 0 {
        let km = (k - 1) as nat;
        lemma_shares_prefix_sum(total, divisor, km);
        assert(shares(total, divisor, k).drop_last() =~= shares(total, divisor, km));
        assert(shares(total, divisor, k).last() == share(total, divisor, km as int));
        assert(((km as usize) as u32) == km);
        assert(k * base == km * base + base) by (nonlinear_arith)
            requires k == km + 1;
    } else {
        assert(shares(total, divisor, 0) =~= Seq::<u32>::empty());
    }
}

/// The shares of all generators add up to the total.
pub proof fn lemma_shares_sum_to_total(total: u32, divisor: usize)
    requires
        0 < divisor <= u32::MAX,
    ensures
        sum_counts(shares(total, divisor, divisor as nat)) == total,
{
    let d = divisor as u32;
    lemma_shares_prefix_sum(total, divisor, divisor as nat);
    assert(total == d * (total / d) + total % d) by (nonlinear_arith)
        requires d > 0;
    assert(divisor as nat * (total / d) == d * (total / d)) by (nonlinear_arith)
        requires divisor == d;
}

/// Shares never grow with the generator's index, and no two shares differ by
/// more than one.
pub proof fn lemma_shares_are_fair(total: u32, divisor: usize, i: int, j: int)
    requires
        0 < divisor <= u32::MAX,
        0 <= i <= j < divisor,
    ensures
        share(total, divisor, j) <= share(total, divisor, i) <= share(total, divisor, j) + 1,
{
    assert(((i as usize) as u32) == i);
    assert(((j as usize) as u32) == j);
    lemma_base_below_max(total, divisor as u32);
}

/// The generators' counts of a step add up to the step's count, and every
/// generator keeps the step's deadline.
pub proof fn lemma_distribution_preserves_steps(
    steps: Seq<LoadStepConfig>,
    n: usize,
    profiles: Seq<LoadProfileConfig>,
    s: int,
)
    requires
        0 < n <= u32::MAX,
        0 <= s < steps.len(),
        is_distribution(steps, n, profiles),
    ensures
        sum_counts(Seq::new(n as nat, |g: int| profiles[g].steps[s].count)) == steps[s].count,
        forall|g: int| 0 <= g < n ==> (#[trigger] profiles[g].steps[s]).deadline == steps[s].deadline,
{
    lemma_shares_sum_to_total(steps[s].count, n);
    assert(Seq::new(n as nat, |g: int| profiles[g].steps[s].count) =~= shares(steps[s].count, n, n as nat)) by {
        assert forall|g: int| 0 <= g < n implies profiles[g].steps[s].count == share(steps[s].count, n, g) by {
            assert(profiles[g].steps[s] == (LoadStepConfig { deadline: steps[s].deadline, count: share(steps[s].count, n, g) }));
        }
    }
    assert forall|g: int| 0 <= g < n implies (#[trigger] profiles[g].steps[s]).deadline == steps[s].deadline by {
        assert(profiles[g].steps[s] == (LoadStepConfig { deadline: steps[s].deadline, count: share(steps[s].count, n, g) }));
    }
}

/// With a single generator the split profile is the input profile itself.
pub proof fn lemma_single_generator_keeps_profile(steps: Seq<LoadStepConfig>, profiles: Seq<LoadProfileConfig>)
    requires
        is_distribution(steps, 1, profiles),
    ensures
        profiles.len() == 1,
        profiles[0].steps@ == steps,
{
    assert(profiles[0].steps.len() == steps.len());
    assert forall|s: int| 0 <= s < steps.len() implies profiles[0].steps@[s] == steps[s] by {
        assert(profiles[0].steps[s] == (LoadStepConfig { deadline: steps[s].deadline, count: share(steps[s].count, 1, 0) }));
        assert(share(steps[s].count, 1, 0) == steps[s].count);
    }
    assert(profiles[0].steps@ =~= steps);
}

} // verus!
