//! Combining the reports of one round, one per generator, into one report.
use vstd::prelude::*;
use crate::load::RelativeLoadTestTime;
use crate::text::push_str;
use crate::wire::GeneratorUpdate;
use crate::tracker::{
    stats_sum_fields, stats_sum_fits, stats_sum_results, sum_statistics, IntervalReport,
    IntervalStatistics,
};

verus! {

/// A generator reported a round for another target time than the first
/// generator of the round.
#[derive(Debug, Clone, Copy, PartialEq, Eq, Structural)]
pub struct TimeMismatch {
    /// The position of the offending report in the round.
    pub index: usize,
    pub expected: RelativeLoadTestTime,
    pub actual: RelativeLoadTestTime,
}

/// The sum of the load levels of a round's reports.
pub open spec fn load_level_sum(r: Seq<IntervalReport>) -> int
    decreases r.len(),
{
    if r.len() == 0 { 0 } else { load_level_sum(r.drop_last()) + r.last().load_level }
}

/// The latest final batch time among a round's reports, if any has one.
pub open spec fn latest_batch_time(r: Seq<IntervalReport>) -> Option<RelativeLoadTestTime>
    decreases r.len(),
{
    if r.len() == 0 {
        None
    } else {
        let rest = latest_batch_time(r.drop_last());
        match (rest, r.last().final_batch_time) {
            (None, x) => x,
            (Some(a), None) => Some(a),
            (Some(a), Some(b)) => if b.spec_nanos() >= a.spec_nanos() { Some(b) } else { Some(a) },
        }
    }
}

/// The latest final batch time of a round is its maximum: none exactly
/// where no report has one, and otherwise a report's final batch time that
/// is at least every final batch time of the round.
pub proof fn lemma_latest_batch_time_is_max(r: Seq<IntervalReport>)
    ensures
        latest_batch_time(r) is None <==> (forall|i: int| 0 <= i < r.len() ==> (#[trigger] r[i]).final_batch_time is None),
        latest_batch_time(r) matches Some(t) ==> {
            &&& exists|i: int| 0 <= i < r.len() && (#[trigger] r[i]).final_batch_time == Some(t)
            &&& forall|i: int| 0 <= i < r.len() ==> ((#[trigger] r[i]).final_batch_time matches Some(u) ==> u.spec_nanos() <= t.spec_nanos())
        },
    decreases r.len(),
{
    if r.len() > 0 {
        let init = r.drop_last();
        lemma_latest_batch_time_is_max(init);
        assert forall|i: int| 0 <= i < init.len() implies #[trigger] init[i] == r[i] by {}
        let n = r.len() - 1;
        match latest_batch_time(r) {
            Some(t) => {
                match (latest_batch_time(init), r[n].final_batch_time) {
                    (None, _) => {
                        assert(r[n].final_batch_time == Some(t));
                        assert forall|i: int| 0 <= i < r.len() implies ((#[trigger] r[i]).final_batch_time matches Some(u) ==> u.spec_nanos() <= t.spec_nanos()) by {
                            if i < n {
                                assert(init[i] == r[i]);
                            }
                        }
                    },
                    (Some(a), None) => {
                        let j = choose|j: int| 0 <= j < init.len() && (#[trigger] init[j]).final_batch_time == Some(a);
                        assert(r[j] == init[j]);
                        assert forall|i: int| 0 <= i < r.len() implies ((#[trigger] r[i]).final_batch_time matches Some(u) ==> u.spec_nanos() <= t.spec_nanos()) by {
                            if i < n {
                                assert(init[i] == r[i]);
                            }
                        }
                    },
                    (Some(a), Some(b)) => {
                        let j = choose|j: int| 0 <= j < init.len() && (#[trigger] init[j]).final_batch_time == Some(a);
                        assert(r[j] == init[j]);
                        assert forall|i: int| 0 <= i < r.len() implies ((#[trigger] r[i]).final_batch_time matches Some(u) ==> u.spec_nanos() <= t.spec_nanos()) by {
                            if i < n {
                                assert(init[i] == r[i]);
                            }
                        }
                    },
                }
            },
            None => {
                assert forall|i: int| 0 <= i < r.len() implies (#[trigger] r[i]).final_batch_time is None by {
                    if i < n {
                        assert(init[i] == r[i]);
                    }
                }
            },
        }
    }
}

/// The statistics of a round's reports.
pub open spec fn round_stats(r: Seq<IntervalReport>) -> Seq<IntervalStatistics> {
    r.map_values(|x: IntervalReport| x.stats)
}

/// The position of the first report whose target time differs from that of
/// the first report.
pub open spec fn first_mismatch(r: Seq<IntervalReport>) -> Option<int> {
    first_mismatch_from(r, 0)
}

/// The position, from `i` on, of the first report whose target time differs
/// from that of the first report.
pub open spec fn first_mismatch_from(r: Seq<IntervalReport>, i: int) -> Option<int>
    decreases r.len() - i,
{
    if i < 0 || i >= r.len() {
        None
    } else if r[i].target_time != r[0].target_time {
        Some(i)
    } else {
        first_mismatch_from(r, i + 1)
    }
}

/// Combines one round of reports: no report gives no round; reports for
/// different target times are an error naming the first offender;
/// otherwise the round has the common target time, the sum of the load
/// levels, the latest final batch time and the sum of the statistics, in
/// report order.
pub fn merge_round(reports: Vec<IntervalReport>) -> (r: Result<Option<IntervalReport>, TimeMismatch>)
    requires
        load_level_sum(reports@) <= u32::MAX,
        first_mismatch(reports@) is None ==> stats_sum_fits(round_stats(reports@)),
    ensures
        reports@.len() == 0 ==> r == Ok::<Option<IntervalReport>, TimeMismatch>(None),
        reports@.len() > 0 ==> match first_mismatch(reports@) {
            Some(i) => r == Err::<Option<IntervalReport>, TimeMismatch>(TimeMismatch {
                index: i as usize,
                expected: reports@[0].target_time,
                actual: reports@[i].target_time,
            }),
            None => r matches Ok(Some(m)) && {
                let (a, b, c, d, e, f) = stats_sum_fields(round_stats(reports@));
                &&& m.target_time == reports@[0].target_time
                &&& m.final_batch_time is None <==> (forall|i: int| 0 <= i < reports@.len() ==> (#[trigger] reports@[i]).final_batch_time is None)
                &&& m.final_batch_time matches Some(t) ==> {
                    &&& exists|i: int| 0 <= i < reports@.len() && (#[trigger] reports@[i]).final_batch_time == Some(t)
                    &&& forall|i: int| 0 <= i < reports@.len() ==> ((#[trigger] reports@[i]).final_batch_time matches Some(u) ==> u.spec_nanos() <= t.spec_nanos())
                }
                &&& m.load_level == load_level_sum(reports@)
                &&& m.final_batch_time == latest_batch_time(reports@)
                &&& m.stats.successful_transactions == a
                &&& m.stats.failed_transactions == b
                &&& m.stats.timeout_transactions == c
                &&& m.stats.dropped_transactions == d
                &&& m.stats.spec_response_time_sum() == e
                &&& m.stats.spec_response_time_count() == f
                &&& m.stats.spec_results() == stats_sum_results(round_stats(reports@))
            },
        },
{
    if reports.len() == 0 {
        return Ok(None);
    }
    let expected = reports[0].target_time;
    let ghost all = reports@;
    let mut load_level: u32 = 0;
    let mut final_batch_time: Option<RelativeLoadTestTime> = None;
    let mut i: usize = 0;
    proof {
        assert(all.take(0) =~= Seq::<IntervalReport>::empty());
    }
    while i < reports.len()
        invariant
            i <= reports.len(),
            reports@ == all,
            all.len() > 0,
            expected == all[0].target_time,
            load_level_sum(all) <= u32::MAX,
            load_level == load_level_sum(all.take(i as int)),
            final_batch_time == latest_batch_time(all.take(i as int)),
            forall|j: int| 0 <= j < i ==> all[j].target_time == expected,
            first_mismatch(all) == first_mismatch_from(all, i as int),
        decreases reports.len() - i,
    {
        let report = &reports[i];
        if report.target_time != expected {
            return Err(TimeMismatch { index: i, expected, actual: report.target_time });
        }
        proof {
            assert(all.take(i + 1).drop_last() =~= all.take(i as int));
            assert(all.take(i + 1).last() == all[i as int]);
            lemma_level_prefix(all, i + 1);
        }
        load_level = load_level + report.load_level;
        final_batch_time = match (final_batch_time, report.final_batch_time) {
            (None, x) => x,
            (Some(a), None) => Some(a),
            (Some(a), Some(b)) => if b.as_nanos() >= a.as_nanos() { Some(b) } else { Some(a) },
        };
        i = i + 1;
    }
    proof {
        assert(all.take(all.len() as int) =~= all);
        assert(first_mismatch(all) is None);
    }
    let mut stats_list: Vec<IntervalStatistics> = Vec::new();
    let ghost n = all.len();
    for report in it: reports
        invariant
            it.seq() == all,
            stats_list@ == round_stats(all.take(it.index() as int)),
    {
        let ghost j = it.index() as int;
        stats_list.push(report.stats);
        proof {
            assert(round_stats(all.take(j + 1)) =~= round_stats(all.take(j)).push(all[j].stats));
        }
    }
    proof {
        assert(all.take(n as int) =~= all);
    }
    let stats = sum_statistics(stats_list);
    proof {
        lemma_latest_batch_time_is_max(all);
    }
    Ok(Some(IntervalReport { target_time: expected, load_level, stats, final_batch_time }))
}

proof fn lemma_level_prefix(r: Seq<IntervalReport>, i: int)
    requires
        0 <= i <= r.len(),
    ensures
        load_level_sum(r.take(i)) <= load_level_sum(r),
    decreases r.len() - i,
{
    if i < r.len() {
        lemma_level_prefix(r, i + 1);
        assert(r.take(i + 1).drop_last() =~= r.take(i));
    } else {
        assert(r.take(i) =~= r);
    }
}

/// Adds `x` to a running total that is capped: `ok` says whether the true
/// total still fits in `u64`, and then `acc` is that total.
fn add_capped(acc: u64, ok: bool, x: u64) -> (r: (u64, bool))
    ensures
        ok ==> (r.1 == (acc + x <= u64::MAX) && (r.1 ==> r.0 == acc + x)),
        !ok ==> !r.1,
{
    if !ok {
        (acc, false)
    } else if acc > u64::MAX - x {
        (acc, false)
    } else {
        (acc + x, true)
    }
}

/// Whether the reports of a round can be combined without a counter
/// overflowing: the load levels add up to at most `u32::MAX`, and every
/// counter of the statistics to at most `u64::MAX`.
pub fn round_fits(reports: &Vec<IntervalReport>) -> (b: bool)
    ensures
        b == (load_level_sum(reports@) <= u32::MAX && stats_sum_fits(round_stats(reports@))),
{
    let ghost all = reports@;
    let mut level: u64 = 0;
    let mut level_ok = true;
    let mut sums: [u64; 6] = [0, 0, 0, 0, 0, 0];
    let mut oks: [bool; 6] = [true, true, true, true, true, true];
    let mut i: usize = 0;
    proof {
        assert(all.take(0) =~= Seq::<IntervalReport>::empty());
        assert(round_stats(all.take(0)) =~= Seq::<IntervalStatistics>::empty());
    }
    while i < reports.len()
        invariant
            i <= reports.len(),
            all == reports@,
            level_ok ==> level == load_level_sum(all.take(i as int)),
            !level_ok ==> load_level_sum(all.take(i as int)) > u32::MAX,
            level_ok ==> level <= u32::MAX,
            ({
                let (a, b, c, d, e, f) = stats_sum_fields(round_stats(all.take(i as int)));
                &&& (oks[0] ==> sums[0] == a) && (!oks[0] ==> a > u64::MAX)
                &&& (oks[1] ==> sums[1] == b) && (!oks[1] ==> b > u64::MAX)
                &&& (oks[2] ==> sums[2] == c) && (!oks[2] ==> c > u64::MAX)
                &&& (oks[3] ==> sums[3] == d) && (!oks[3] ==> d > u64::MAX)
                &&& (oks[4] ==> sums[4] == e) && (!oks[4] ==> e > u64::MAX)
                &&& (oks[5] ==> sums[5] == f) && (!oks[5] ==> f > u64::MAX)
            }),
        decreases reports.len() - i,
    {
        let r = &reports[i];
        proof {
            assert(all.take(i + 1).drop_last() =~= all.take(i as int));
            assert(all.take(i + 1).last() == all[i as int]);
            assert(round_stats(all.take(i + 1)).drop_last() =~= round_stats(all.take(i as int)));
            assert(round_stats(all.take(i + 1)).last() == all[i as int].stats);
        }
        if level_ok {
            let n = level + r.load_level as u64;
            if n > u32::MAX as u64 {
                level_ok = false;
            } else {
                level = n;
            }
        }
        let s = &r.stats;
        let (x0, o0) = add_capped(sums[0], oks[0], s.successful_transactions);
        let (x1, o1) = add_capped(sums[1], oks[1], s.failed_transactions);
        let (x2, o2) = add_capped(sums[2], oks[2], s.timeout_transactions);
        let (x3, o3) = add_capped(sums[3], oks[3], s.dropped_transactions);
        let (x4, o4) = add_capped(sums[4], oks[4], s.response_time_sum());
        let (x5, o5) = add_capped(sums[5], oks[5], s.response_time_count());
        sums = [x0, x1, x2, x3, x4, x5];
        oks = [o0, o1, o2, o3, o4, o5];
        i = i + 1;
    }
    proof {
        assert(all.take(all.len() as int) =~= all);
    }
    level_ok && oks[0] && oks[1] && oks[2] && oks[3] && oks[4] && oks[5]
}

/// Whether the load levels of a round add up to at most `u32::MAX`.
pub fn load_levels_fit(reports: &Vec<IntervalReport>) -> (b: bool)
    ensures
        b == (load_level_sum(reports@) <= u32::MAX),
{
    let ghost all = reports@;
    let mut level: u64 = 0;
    let mut i: usize = 0;
    proof {
        assert(all.take(0) =~= Seq::<IntervalReport>::empty());
    }
    while i < reports.len()
        invariant
            i <= reports.len(),
            all == reports@,
            level == load_level_sum(all.take(i as int)),
            level <= u32::MAX,
        decreases reports.len() - i,
    {
        proof {
            assert(all.take(i + 1).drop_last() =~= all.take(i as int));
            assert(all.take(i + 1).last() == all[i as int]);
        }
        let n = level + reports[i].load_level as u64;
        if n > u32::MAX as u64 {
            proof {
                lemma_level_prefix(all, i + 1);
            }
            return false;
        }
        level = n;
        i = i + 1;
    }
    proof {
        assert(all.take(all.len() as int) =~= all);
    }
    true
}

/// Whether every report of a round has the target time of the first.
pub fn times_agree(reports: &Vec<IntervalReport>) -> (b: bool)
    ensures
        b == (first_mismatch(reports@) is None),
{
    if reports.len() == 0 {
        return true;
    }
    let expected = reports[0].target_time;
    let mut i: usize = 0;
    while i < reports.len()
        invariant
            i <= reports.len(),
            reports@.len() > 0,
            expected == reports@[0].target_time,
            first_mismatch(reports@) == first_mismatch_from(reports@, i as int),
        decreases reports.len() - i,
    {
        if reports[i].target_time != expected {
            return false;
        }
        i = i + 1;
    }
    true
}

/// Why collecting a round failed.
#[derive(Debug, Clone, PartialEq, Eq)]
pub enum CollectError {
    /// The generator at `address` closed its connection during the test.
    InstanceCrashed { address: String },
    /// The generator at `address` reported another target time than the
    /// first generator of the round. The times are floating-point numbers
    /// of seconds, which the library does not hold; `expected` and `actual`
    /// are their renderings (`Duration::as_secs_f64`, written with
    /// `to_string`).
    TimeMismatch { address: String, expected: String, actual: String },
}

/// The message of a collect error; times are in seconds.
pub open spec fn collect_error_message(e: CollectError) -> Seq<char> {
    match e {
        CollectError::InstanceCrashed { address } => "load generator instance `"@ + address@
            + "` disconnected mid-load-test"@,
        CollectError::TimeMismatch { address, expected, actual } => "load generator instance `"@ + address@
            + "` reported interval at target_time `"@ + actual@ + "`s, but reference target_time was `"@
            + expected@ + "`s"@,
    }
}

impl CollectError {
    /// The message of the error.
    pub fn message(&self) -> (s: String)
        ensures
            s@ == collect_error_message(*self),
    {
        let mut s = String::new();
        match self {
            CollectError::InstanceCrashed { address } => {
                push_str(&mut s, "load generator instance `");
                push_str(&mut s, address.as_str());
                push_str(&mut s, "` disconnected mid-load-test");
            },
            CollectError::TimeMismatch { address, expected, actual } => {
                push_str(&mut s, "load generator instance `");
                push_str(&mut s, address.as_str());
                push_str(&mut s, "` reported interval at target_time `");
                push_str(&mut s, actual.as_str());
                push_str(&mut s, "`s, but reference target_time was `");
                push_str(&mut s, expected.as_str());
                push_str(&mut s, "`s");
            },
        }
        s
    }
}

/// What to do with the generator that was just heard from.
#[derive(Debug, Clone, Copy, PartialEq, Eq, Structural)]
pub enum RoundAction {
    /// It sent its report: keep it and ask the next generator.
    Keep,
    /// It finished: remove it, moving the last generator into its place,
    /// and ask the generator now at that place.
    Remove,
    /// Its connection closed: the round fails.
    Crashed,
}

/// Gathers one round of reports, asking the generators in turn.
#[derive(Debug)]
pub struct RoundCollector {
    reports: Vec<IntervalReport>,
}

impl RoundCollector {
    /// The reports gathered so far, in the order of the generators.
    pub closed spec fn spec_reports(self) -> Seq<IntervalReport> {
        self.reports@
    }

    /// A round with no report yet.
    pub fn new() -> (c: Self)
        ensures
            c.spec_reports() == Seq::<IntervalReport>::empty(),
    {
        RoundCollector { reports: Vec::new() }
    }

    /// The position of the generator to ask next, while any of the
    /// `remaining` generators has not been heard from: as many generators
    /// as there are reports have sent theirs.
    pub fn next_handle(&self, remaining: usize) -> (r: Option<usize>)
        ensures
            r == (if self.spec_reports().len() < remaining {
                Some(self.spec_reports().len() as usize)
            } else {
                None::<usize>
            }),
    {
        if self.reports.len() < remaining {
            Some(self.reports.len())
        } else {
            None
        }
    }

    /// Records what the generator asked last sent (`None` where its
    /// connection closed).
    pub fn record(&mut self, update: Option<GeneratorUpdate>) -> (a: RoundAction)
        ensures
            match update {
                Some(GeneratorUpdate::IntervalReport(r)) => a == RoundAction::Keep
                    && final(self).spec_reports() == old(self).spec_reports().push(r),
                Some(GeneratorUpdate::Finished) => a == RoundAction::Remove
                    && final(self).spec_reports() == old(self).spec_reports(),
                None => a == RoundAction::Crashed && final(self).spec_reports() == old(self).spec_reports(),
            },
    {
        match update {
            Some(GeneratorUpdate::IntervalReport(r)) => {
                self.reports.push(r);
                RoundAction::Keep
            },
            Some(GeneratorUpdate::Finished) => RoundAction::Remove,
            None => RoundAction::Crashed,
        }
    }

    /// The reports of the round, in the order of the generators.
    pub fn into_reports(self) -> (r: Vec<IntervalReport>)
        ensures
            r@ == self.spec_reports(),
    {
        self.reports
    }
}

} // verus!
