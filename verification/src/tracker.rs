//! Counting transaction outcomes per interval and over the whole test.
//!
//! A `Tracker` is owned by one load generator loop; callers that share it
//! between tasks wrap it in a lock. Counters advance by one per logged
//! result and wrap at `u64::MAX`.
use vstd::prelude::*;
use crate::load::{RelativeLoadTestTime, NANOS_PER_MILLI};
use crate::transaction::TransactionResult;

verus! {

/// Which of the four outcomes a result is.
pub open spec fn is_success(r: TransactionResult) -> bool { r is Success }
pub open spec fn is_failed(r: TransactionResult) -> bool { r is Failed }
pub open spec fn is_timeout(r: TransactionResult) -> bool { r is Timeout }
pub open spec fn is_dropped(r: TransactionResult) -> bool { r is Dropped }

/// The number of results in `s` that satisfy `p`.
pub open spec fn count_where(s: Seq<TransactionResult>, p: spec_fn(TransactionResult) -> bool) -> nat
    decreases s.len(),
{
    if s.len() == 0 {
        0
    } else {
        count_where(s.drop_last(), p) + if p(s.last()) { 1nat } else { 0nat }
    }
}

/// Whole milliseconds of service time of a result (zero for a dropped one).
pub open spec fn service_millis(r: TransactionResult) -> nat {
    match r.spec_service_time() {
        Some(t) => t.spec_nanos() / (NANOS_PER_MILLI as nat),
        None => 0,
    }
}

/// Total milliseconds of service time over `s`.
pub open spec fn service_millis_sum(s: Seq<TransactionResult>) -> nat
    decreases s.len(),
{
    if s.len() == 0 {
        0
    } else {
        service_millis_sum(s.drop_last()) + service_millis(s.last())
    }
}

/// Totals of each outcome over the whole test.
#[derive(Debug, Clone, Copy, PartialEq, Eq, Structural)]
pub struct TotalCounts {
    pub success: u64,
    pub failed: u64,
    pub timeout: u64,
    pub dropped: u64,
}

impl Default for TotalCounts {
    fn default() -> (c: Self)
        ensures
            c == (TotalCounts { success: 0, failed: 0, timeout: 0, dropped: 0 }),
    {
        TotalCounts { success: 0, failed: 0, timeout: 0, dropped: 0 }
    }
}

impl TotalCounts {
    /// The sum of the four counts, as a mathematical integer.
    pub open spec fn spec_sum(self) -> int {
        self.success + self.failed + self.timeout + self.dropped
    }

    /// The counts after one more result `r`, each advancing with wrap-around.
    pub open spec fn counted(self, r: TransactionResult) -> TotalCounts {
        TotalCounts {
            success: if r is Success { self.success.wrapping_add(1) } else { self.success },
            failed: if r is Failed { self.failed.wrapping_add(1) } else { self.failed },
            timeout: if r is Timeout { self.timeout.wrapping_add(1) } else { self.timeout },
            dropped: if r is Dropped { self.dropped.wrapping_add(1) } else { self.dropped },
        }
    }

    /// The number of transactions counted.
    pub fn sum(&self) -> (s: u64)
        requires
            self.spec_sum() <= u64::MAX,
        ensures
            s == self.spec_sum(),
    {
        self.success + self.failed + self.timeout + self.dropped
    }

    fn count(&mut self, r: &TransactionResult)
        ensures
            *final(self) == old(self).counted(*r),
    {
        match r {
            TransactionResult::Success { .. } => { self.success = self.success.wrapping_add(1); }
            TransactionResult::Failed { .. } => { self.failed = self.failed.wrapping_add(1); }
            TransactionResult::Timeout { .. } => { self.timeout = self.timeout.wrapping_add(1); }
            TransactionResult::Dropped { .. } => { self.dropped = self.dropped.wrapping_add(1); }
        }
    }
}

/// Outcome counts, service-time totals and the results themselves for one
/// interval.
#[derive(Debug, Clone, PartialEq, Eq)]
pub struct IntervalStatistics {
    pub successful_transactions: u64,
    pub failed_transactions: u64,
    pub timeout_transactions: u64,
    pub dropped_transactions: u64,
    pub response_time_sum: u64,
    pub response_time_count: u64,
    pub transaction_results: Vec<TransactionResult>,
}

impl Default for IntervalStatistics {
    fn default() -> (s: Self)
        ensures
            s.successful_transactions == 0,
            s.failed_transactions == 0,
            s.timeout_transactions == 0,
            s.dropped_transactions == 0,
            s.spec_response_time_sum() == 0,
            s.spec_response_time_count() == 0,
            s.spec_results() == Seq::<TransactionResult>::empty(),
    {
        IntervalStatistics::empty()
    }
}

impl IntervalStatistics {
    /// Total service time in milliseconds of the measured transactions.
    pub open spec fn spec_response_time_sum(self) -> u64 {
        self.response_time_sum
    }

    /// The number of measured (non-dropped) transactions.
    pub open spec fn spec_response_time_count(self) -> u64 {
        self.response_time_count
    }

    /// The results of the interval in the order they were logged.
    pub open spec fn spec_results(self) -> Seq<TransactionResult> {
        self.transaction_results@
    }

    /// The average service time in milliseconds, zero when nothing was
    /// measured.
    pub open spec fn spec_average(self) -> u64 {
        if self.spec_response_time_count() == 0 {
            0
        } else {
            (self.spec_response_time_sum() / self.spec_response_time_count()) as u64
        }
    }

    /// Whether adding `rhs` to `self` stays within `u64` in every counter.
    pub open spec fn can_add(self, rhs: IntervalStatistics) -> bool {
        &&& self.successful_transactions + rhs.successful_transactions <= u64::MAX
        &&& self.failed_transactions + rhs.failed_transactions <= u64::MAX
        &&& self.timeout_transactions + rhs.timeout_transactions <= u64::MAX
        &&& self.dropped_transactions + rhs.dropped_transactions <= u64::MAX
        &&& self.spec_response_time_sum() + rhs.spec_response_time_sum() <= u64::MAX
        &&& self.spec_response_time_count() + rhs.spec_response_time_count() <= u64::MAX
    }

    /// The statistics with all counters zero and no results.
    pub fn empty() -> (s: Self)
        ensures
            s.successful_transactions == 0,
            s.failed_transactions == 0,
            s.timeout_transactions == 0,
            s.dropped_transactions == 0,
            s.spec_response_time_sum() == 0,
            s.spec_response_time_count() == 0,
            s.spec_results() == Seq::<TransactionResult>::empty(),
    {
        IntervalStatistics {
            successful_transactions: 0,
            failed_transactions: 0,
            timeout_transactions: 0,
            dropped_transactions: 0,
            response_time_sum: 0,
            response_time_count: 0,
            transaction_results: Vec::new(),
        }
    }

    /// The results of the interval in logging order.
    pub fn results(&self) -> (r: &[TransactionResult])
        ensures
            r@ == self.spec_results(),
    {
        self.transaction_results.as_slice()
    }

    /// Total service time in milliseconds of the measured transactions.
    pub fn response_time_sum(&self) -> (s: u64)
        ensures
            s == self.spec_response_time_sum(),
    {
        self.response_time_sum
    }

    /// The number of measured transactions.
    pub fn response_time_count(&self) -> (c: u64)
        ensures
            c == self.spec_response_time_count(),
    {
        self.response_time_count
    }

    /// The average service time in milliseconds of the measured
    /// transactions; zero when no transaction was measured.
    pub fn average_response_time(&self) -> (a: u64)
        ensures
            a == self.spec_average(),
    {
        match self.response_time_sum.checked_div(self.response_time_count) {
            Some(v) => v,
            None => 0,
        }
    }

    /// Combines the statistics of two intervals (or two generators): counts
    /// and sums add, and the results of `rhs` follow those of `self`.
    pub fn add(self, rhs: Self) -> (r: Self)
        requires
            self.can_add(rhs),
        ensures
            r.successful_transactions == self.successful_transactions + rhs.successful_transactions,
            r.failed_transactions == self.failed_transactions + rhs.failed_transactions,
            r.timeout_transactions == self.timeout_transactions + rhs.timeout_transactions,
            r.dropped_transactions == self.dropped_transactions + rhs.dropped_transactions,
            r.spec_response_time_sum() == self.spec_response_time_sum() + rhs.spec_response_time_sum(),
            r.spec_response_time_count() == self.spec_response_time_count() + rhs.spec_response_time_count(),
            r.spec_results() == self.spec_results() + rhs.spec_results(),
    {
        let mut results = self.transaction_results;
        let mut more = rhs.transaction_results;
        results.append(&mut more);
        IntervalStatistics {
            successful_transactions: self.successful_transactions + rhs.successful_transactions,
            failed_transactions: self.failed_transactions + rhs.failed_transactions,
            timeout_transactions: self.timeout_transactions + rhs.timeout_transactions,
            dropped_transactions: self.dropped_transactions + rhs.dropped_transactions,
            response_time_sum: self.response_time_sum + rhs.response_time_sum,
            response_time_count: self.response_time_count + rhs.response_time_count,
            transaction_results: results,
        }
    }
}

/// The combined statistics of a sequence of intervals, each added to the
/// running total from the first to the last.
pub open spec fn stats_sum_fields(s: Seq<IntervalStatistics>) -> (int, int, int, int, int, int)
    decreases s.len(),
{
    if s.len() == 0 {
        (0, 0, 0, 0, 0, 0)
    } else {
        let (a, b, c, d, e, f) = stats_sum_fields(s.drop_last());
        let x = s.last();
        (
            a + x.successful_transactions,
            b + x.failed_transactions,
            c + x.timeout_transactions,
            d + x.dropped_transactions,
            e + x.spec_response_time_sum(),
            f + x.spec_response_time_count(),
        )
    }
}

/// The results of a sequence of intervals, concatenated in order.
pub open spec fn stats_sum_results(s: Seq<IntervalStatistics>) -> Seq<TransactionResult>
    decreases s.len(),
{
    if s.len() == 0 {
        seq![]
    } else {
        stats_sum_results(s.drop_last()) + s.last().spec_results()
    }
}

/// Whether every counter of the combined statistics stays within `u64`.
pub open spec fn stats_sum_fits(s: Seq<IntervalStatistics>) -> bool {
    let (a, b, c, d, e, f) = stats_sum_fields(s);
    a <= u64::MAX && b <= u64::MAX && c <= u64::MAX && d <= u64::MAX && e <= u64::MAX && f <= u64::MAX
}

proof fn lemma_stats_sum_prefix_fits(s: Seq<IntervalStatistics>, i: int)
    requires
        0 <= i <= s.len(),
        stats_sum_fits(s),
    ensures
        stats_sum_fits(s.take(i)),
    decreases s.len() - i,
{
    if i < s.len() {
        lemma_stats_sum_prefix_fits(s, i + 1);
        assert(s.take(i + 1).drop_last() =~= s.take(i));
    } else {
        assert(s.take(i) =~= s);
    }
}

/// Adds up a list of interval statistics, from an empty total, in order.
pub fn sum_statistics(stats: Vec<IntervalStatistics>) -> (r: IntervalStatistics)
    requires
        stats_sum_fits(stats@),
    ensures
        ({
            let (a, b, c, d, e, f) = stats_sum_fields(stats@);
            &&& r.successful_transactions == a
            &&& r.failed_transactions == b
            &&& r.timeout_transactions == c
            &&& r.dropped_transactions == d
            &&& r.spec_response_time_sum() == e
            &&& r.spec_response_time_count() == f
        }),
        r.spec_results() == stats_sum_results(stats@),
{
    let ghost all = stats@;
    let mut acc = IntervalStatistics::empty();
    proof {
        assert(all.take(0) =~= Seq::<IntervalStatistics>::empty());
    }
    for next in it: stats
        invariant
            it.seq() == all,
            stats_sum_fits(all),
            ({
                let (a, b, c, d, e, f) = stats_sum_fields(all.take(it.index() as int));
                &&& acc.successful_transactions == a
                &&& acc.failed_transactions == b
                &&& acc.timeout_transactions == c
                &&& acc.dropped_transactions == d
                &&& acc.spec_response_time_sum() == e
                &&& acc.spec_response_time_count() == f
            }),
            acc.spec_results() == stats_sum_results(all.take(it.index() as int)),
    {
        let ghost i = it.index() as int;
        proof {
            assert(all.take(i + 1).drop_last() =~= all.take(i));
            assert(all.take(i + 1).last() == all[i]);
            lemma_stats_sum_prefix_fits(all, i + 1);
        }
        acc = acc.add(next);
    }
    proof {
        assert(all.take(all.len() as int) =~= all);
    }
    acc
}

/// The report of one interval of the load test.
#[derive(Debug, Clone, PartialEq, Eq)]
pub struct IntervalReport {
    pub target_time: RelativeLoadTestTime,
    pub load_level: u32,
    pub stats: IntervalStatistics,
    pub final_batch_time: Option<RelativeLoadTestTime>,
}

impl IntervalReport {
    pub fn new(
        target_time: RelativeLoadTestTime,
        load_level: u32,
        stats: IntervalStatistics,
        final_batch_time: Option<RelativeLoadTestTime>,
    ) -> (r: Self)
        ensures
            r == (IntervalReport { target_time, load_level, stats, final_batch_time }),
    {
        IntervalReport { target_time, load_level, stats, final_batch_time }
    }
}

/// Counts of the results logged in the current interval, with their service
/// time totals.
#[derive(Debug)]
struct IntervalTracker {
    counts: TotalCounts,
    service_time_sum: u64,
    service_time_count: u64,
    transaction_results: Vec<TransactionResult>,
}

/// What a tracker holds: the totals, the current interval's counts,
/// service-time sum and count and results, and the dispatched count.
pub struct TrackerView {
    pub totals: TotalCounts,
    pub interval_counts: TotalCounts,
    pub service_sum: u64,
    pub service_count: u64,
    pub results: Seq<TransactionResult>,
    pub dispatched: u64,
}

/// The counts with all four outcomes at zero.
pub open spec fn zero_counts() -> TotalCounts {
    TotalCounts { success: 0, failed: 0, timeout: 0, dropped: 0 }
}

impl TrackerView {
    /// A tracker with nothing logged or dispatched.
    pub open spec fn fresh() -> TrackerView {
        TrackerView {
            totals: zero_counts(),
            interval_counts: zero_counts(),
            service_sum: 0,
            service_count: 0,
            results: Seq::empty(),
            dispatched: 0,
        }
    }

    /// Whether the current interval is empty.
    pub open spec fn interval_is_empty(self) -> bool {
        &&& self.interval_counts == zero_counts()
        &&& self.service_sum == 0
        &&& self.service_count == 0
        &&& self.results == Seq::<TransactionResult>::empty()
    }

    /// The tracker after logging `r`.
    pub open spec fn logged(self, r: TransactionResult) -> TrackerView {
        TrackerView {
            totals: self.totals.counted(r),
            interval_counts: self.interval_counts.counted(r),
            service_sum: if r is Dropped { self.service_sum } else { self.service_sum.wrapping_add(service_millis(r) as u64) },
            service_count: if r is Dropped { self.service_count } else { self.service_count.wrapping_add(1) },
            results: self.results.push(r),
            dispatched: self.dispatched,
        }
    }

    /// The tracker after its interval statistics were taken.
    pub open spec fn taken(self) -> TrackerView {
        TrackerView {
            totals: self.totals,
            interval_counts: zero_counts(),
            service_sum: 0,
            service_count: 0,
            results: Seq::empty(),
            dispatched: self.dispatched,
        }
    }

    /// The tracker after `n` more transactions were dispatched.
    pub open spec fn with_dispatched(self, n: u64) -> TrackerView {
        TrackerView { dispatched: self.dispatched.wrapping_add(n), ..self }
    }

    /// Transactions dispatched but not yet logged, zero when more were
    /// logged than dispatched.
    pub open spec fn inflight(self) -> int {
        if self.dispatched >= self.totals.spec_sum() {
            self.dispatched - self.totals.spec_sum()
        } else {
            0
        }
    }

    /// The average service time of the interval, as the statistics taken
    /// from the tracker give it.
    pub open spec fn interval_average(self) -> int {
        if self.service_count == 0 { 0 } else { self.service_sum as int / self.service_count as int }
    }
}

/// One call on a tracker.
pub enum TrackerStep {
    Log(TransactionResult),
    Dispatch(u64),
    TakeInterval,
}

/// The tracker after the calls `steps`, in order, starting from `v`.
pub open spec fn run_steps(v: TrackerView, steps: Seq<TrackerStep>) -> TrackerView
    decreases steps.len(),
{
    if steps.len() == 0 {
        v
    } else {
        let w = run_steps(v, steps.drop_last());
        match steps.last() {
            TrackerStep::Log(r) => w.logged(r),
            TrackerStep::Dispatch(n) => w.with_dispatched(n),
            TrackerStep::TakeInterval => w.taken(),
        }
    }
}

/// The results logged by `steps`, in order.
pub open spec fn logged_results(steps: Seq<TrackerStep>) -> Seq<TransactionResult>
    decreases steps.len(),
{
    if steps.len() == 0 {
        Seq::empty()
    } else {
        let rest = logged_results(steps.drop_last());
        match steps.last() {
            TrackerStep::Log(r) => rest.push(r),
            _ => rest,
        }
    }
}

/// The total dispatched by `steps`.
pub open spec fn dispatched_total(steps: Seq<TrackerStep>) -> int
    decreases steps.len(),
{
    if steps.len() == 0 {
        0
    } else {
        dispatched_total(steps.drop_last()) + match steps.last() {
            TrackerStep::Dispatch(n) => n as int,
            _ => 0,
        }
    }
}

/// The tracker after logging `rs` in order, starting from `v`.
pub open spec fn log_all(v: TrackerView, rs: Seq<TransactionResult>) -> TrackerView
    decreases rs.len(),
{
    if rs.len() == 0 {
        v
    } else {
        log_all(v, rs.drop_last()).logged(rs.last())
    }
}

/// Whether a result is measured (not dropped).
pub open spec fn is_measured(r: TransactionResult) -> bool {
    !(r is Dropped)
}

/// The counts of each outcome among `rs`.
pub open spec fn counts_of(rs: Seq<TransactionResult>) -> TotalCounts {
    TotalCounts {
        success: count_where(rs, |r: TransactionResult| is_success(r)) as u64,
        failed: count_where(rs, |r: TransactionResult| is_failed(r)) as u64,
        timeout: count_where(rs, |r: TransactionResult| is_timeout(r)) as u64,
        dropped: count_where(rs, |r: TransactionResult| is_dropped(r)) as u64,
    }
}

/// The average service time over the measured results among `rs`, zero
/// when none is measured.
pub open spec fn measured_average(rs: Seq<TransactionResult>) -> int {
    let n = count_where(rs, |r: TransactionResult| is_measured(r));
    if n == 0 { 0 } else { service_millis_sum(rs) as int / n as int }
}

proof fn lemma_count_where_bounds(rs: Seq<TransactionResult>, p: spec_fn(TransactionResult) -> bool)
    ensures
        count_where(rs, p) <= rs.len(),
    decreases rs.len(),
{
    if rs.len() > 0 {
        lemma_count_where_bounds(rs.drop_last(), p);
    }
}

proof fn lemma_counts_partition(rs: Seq<TransactionResult>)
    ensures
        count_where(rs, |r: TransactionResult| is_success(r)) + count_where(rs, |r: TransactionResult| is_failed(r))
            + count_where(rs, |r: TransactionResult| is_timeout(r)) + count_where(rs, |r: TransactionResult| is_dropped(r))
            == rs.len(),
        count_where(rs, |r: TransactionResult| is_measured(r)) + count_where(rs, |r: TransactionResult| is_dropped(r)) == rs.len(),
    decreases rs.len(),
{
    if rs.len() > 0 {
        lemma_counts_partition(rs.drop_last());
    }
}

/// Logging results into an empty interval: the interval's counts are the
/// counts of each outcome among them, its results are they in order, its
/// service sum is their total service time and its count the number of
/// measured ones, so the interval's average is their measured average, and
/// the four counts add up to the number of results. This holds as long as
/// the counters do not wrap.
pub proof fn lemma_interval_after_logs(v: TrackerView, rs: Seq<TransactionResult>)
    requires
        v.interval_is_empty(),
        rs.len() <= u64::MAX,
        service_millis_sum(rs) <= u64::MAX,
    ensures
        log_all(v, rs).interval_counts == counts_of(rs),
        log_all(v, rs).results == rs,
        log_all(v, rs).service_sum == service_millis_sum(rs),
        log_all(v, rs).service_count == count_where(rs, |r: TransactionResult| is_measured(r)),
        log_all(v, rs).interval_average() == measured_average(rs),
        counts_of(rs).spec_sum() == rs.len(),
        log_all(v, rs).dispatched == v.dispatched,
    decreases rs.len(),
{
    lemma_counts_partition(rs);
    if rs.len() > 0 {
        let init = rs.drop_last();
        lemma_interval_after_logs(v, init);
        lemma_counts_partition(init);
        lemma_count_where_bounds(init, |r: TransactionResult| is_success(r));
        lemma_count_where_bounds(init, |r: TransactionResult| is_failed(r));
        lemma_count_where_bounds(init, |r: TransactionResult| is_timeout(r));
        lemma_count_where_bounds(init, |r: TransactionResult| is_dropped(r));
        lemma_count_where_bounds(init, |r: TransactionResult| is_measured(r));
        assert(service_millis_sum(init) <= service_millis_sum(rs));
    } else {
        assert(log_all(v, rs) == v);
    }
}

/// From a fresh tracker, after any calls: the totals are the counts of each
/// outcome among all results logged, whatever intervals were taken in
/// between; the dispatched count is the total dispatched; and the in-flight
/// count is that total less the number logged, or zero where more were
/// logged. This holds as long as the counters do not wrap.
pub proof fn lemma_totals_after_steps(steps: Seq<TrackerStep>)
    requires
        logged_results(steps).len() <= u64::MAX,
        dispatched_total(steps) <= u64::MAX,
    ensures
        run_steps(TrackerView::fresh(), steps).totals == counts_of(logged_results(steps)),
        run_steps(TrackerView::fresh(), steps).totals.spec_sum() == logged_results(steps).len(),
        run_steps(TrackerView::fresh(), steps).dispatched == dispatched_total(steps),
        run_steps(TrackerView::fresh(), steps).inflight() == (if dispatched_total(steps) >= logged_results(steps).len() {
            dispatched_total(steps) - logged_results(steps).len()
        } else {
            0
        }),
    decreases steps.len(),
{
    let l = logged_results(steps);
    lemma_counts_partition(l);
    if steps.len() > 0 {
        let init = steps.drop_last();
        let li = logged_results(init);
        assert(li.len() <= l.len());
        assert(dispatched_total(init) <= dispatched_total(steps)) by {
            match steps.last() {
                TrackerStep::Dispatch(n) => {},
                _ => {},
            }
        }
        lemma_totals_after_steps(init);
        lemma_counts_partition(li);
        lemma_count_where_bounds(li, |r: TransactionResult| is_success(r));
        lemma_count_where_bounds(li, |r: TransactionResult| is_failed(r));
        lemma_count_where_bounds(li, |r: TransactionResult| is_timeout(r));
        lemma_count_where_bounds(li, |r: TransactionResult| is_dropped(r));
        match steps.last() {
            TrackerStep::Log(r) => {
                assert(l.drop_last() =~= li);
            },
            _ => {
                assert(l =~= li);
            },
        }
    }
}

/// Records transaction outcomes: totals over the whole test, statistics per
/// interval, and the number of transactions dispatched.
#[derive(Debug)]
pub struct Tracker {
    total: TotalCounts,
    interval: IntervalTracker,
    dispatched: u64,
}

impl Tracker {
    /// Totals over the whole test.
    pub closed spec fn spec_totals(self) -> TotalCounts {
        self.total
    }

    /// Counts of the results logged since the last interval was taken.
    pub closed spec fn spec_interval_counts(self) -> TotalCounts {
        self.interval.counts
    }

    /// Milliseconds of service time since the last interval was taken.
    pub closed spec fn spec_interval_service_sum(self) -> u64 {
        self.interval.service_time_sum
    }

    /// Measured results since the last interval was taken.
    pub closed spec fn spec_interval_service_count(self) -> u64 {
        self.interval.service_time_count
    }

    /// The results logged since the last interval was taken, in order.
    pub closed spec fn spec_interval_results(self) -> Seq<TransactionResult> {
        self.interval.transaction_results@
    }

    /// Transactions dispatched so far.
    pub closed spec fn spec_dispatched(self) -> u64 {
        self.dispatched
    }

    /// Whether every view of `self` is that of a tracker with no activity.
    pub open spec fn is_fresh(self) -> bool {
        &&& self.spec_totals() == (TotalCounts { success: 0, failed: 0, timeout: 0, dropped: 0 })
        &&& self.spec_interval_counts() == (TotalCounts { success: 0, failed: 0, timeout: 0, dropped: 0 })
        &&& self.spec_interval_service_sum() == 0
        &&& self.spec_interval_service_count() == 0
        &&& self.spec_interval_results() == Seq::<TransactionResult>::empty()
        &&& self.spec_dispatched() == 0
    }

    /// What the tracker holds.
    pub open spec fn view(self) -> TrackerView {
        TrackerView {
            totals: self.spec_totals(),
            interval_counts: self.spec_interval_counts(),
            service_sum: self.spec_interval_service_sum(),
            service_count: self.spec_interval_service_count(),
            results: self.spec_interval_results(),
            dispatched: self.spec_dispatched(),
        }
    }

    /// A tracker with nothing logged.
    pub fn new() -> (t: Self)
        ensures
            t.is_fresh(),
            t@ == TrackerView::fresh(),
    {
        Tracker {
            total: TotalCounts { success: 0, failed: 0, timeout: 0, dropped: 0 },
            interval: IntervalTracker {
                counts: TotalCounts { success: 0, failed: 0, timeout: 0, dropped: 0 },
                service_time_sum: 0,
                service_time_count: 0,
                transaction_results: Vec::new(),
            },
            dispatched: 0,
        }
    }

    /// Logs one result: it counts towards the totals and the current
    /// interval; a measured result adds its service time in milliseconds.
    pub fn log_result(&mut self, result: TransactionResult)
        ensures
            final(self).spec_totals() == old(self).spec_totals().counted(result),
            final(self).spec_interval_counts() == old(self).spec_interval_counts().counted(result),
            final(self).spec_interval_service_sum() == (if result is Dropped {
                old(self).spec_interval_service_sum()
            } else {
                old(self).spec_interval_service_sum().wrapping_add(service_millis(result) as u64)
            }),
            final(self).spec_interval_service_count() == (if result is Dropped {
                old(self).spec_interval_service_count()
            } else {
                old(self).spec_interval_service_count().wrapping_add(1)
            }),
            final(self).spec_interval_results() == old(self).spec_interval_results().push(result),
            final(self).spec_dispatched() == old(self).spec_dispatched(),
            final(self)@ == old(self)@.logged(result),
    {
        self.total.count(&result);
        self.interval.counts.count(&result);
        match &result {
            TransactionResult::Success { service_time, .. }
            | TransactionResult::Failed { service_time, .. }
            | TransactionResult::Timeout { service_time, .. } => {
                let ms = service_time.as_millis();
                self.interval.service_time_sum = self.interval.service_time_sum.wrapping_add(ms);
                self.interval.service_time_count = self.interval.service_time_count.wrapping_add(1);
            }
            TransactionResult::Dropped { .. } => {}
        }
        self.interval.transaction_results.push(result);
    }

    /// Takes the statistics of the current interval and starts a new, empty
    /// one. Totals and the dispatched count are kept.
    pub fn interval_statistics(&mut self) -> (s: IntervalStatistics)
        ensures
            s.successful_transactions == old(self).spec_interval_counts().success,
            s.failed_transactions == old(self).spec_interval_counts().failed,
            s.timeout_transactions == old(self).spec_interval_counts().timeout,
            s.dropped_transactions == old(self).spec_interval_counts().dropped,
            s.spec_response_time_sum() == old(self).spec_interval_service_sum(),
            s.spec_response_time_count() == old(self).spec_interval_service_count(),
            s.spec_results() == old(self).spec_interval_results(),
            final(self).spec_interval_counts() == (TotalCounts { success: 0, failed: 0, timeout: 0, dropped: 0 }),
            final(self).spec_interval_service_sum() == 0,
            final(self).spec_interval_service_count() == 0,
            final(self).spec_interval_results() == Seq::<TransactionResult>::empty(),
            final(self).spec_totals() == old(self).spec_totals(),
            final(self).spec_dispatched() == old(self).spec_dispatched(),
            final(self)@ == old(self)@.taken(),
    {
        let counts = self.interval.counts;
        let sum = self.interval.service_time_sum;
        let count = self.interval.service_time_count;
        let mut results = Vec::new();
        std::mem::swap(&mut results, &mut self.interval.transaction_results);
        self.interval.counts = TotalCounts { success: 0, failed: 0, timeout: 0, dropped: 0 };
        self.interval.service_time_sum = 0;
        self.interval.service_time_count = 0;
        IntervalStatistics {
            successful_transactions: counts.success,
            failed_transactions: counts.failed,
            timeout_transactions: counts.timeout,
            dropped_transactions: counts.dropped,
            response_time_sum: sum,
            response_time_count: count,
            transaction_results: results,
        }
    }

    /// Totals over the whole test.
    pub fn totals(&self) -> (t: TotalCounts)
        ensures
            t == self.spec_totals(),
    {
        self.total
    }

    /// Records that `n` more transactions were dispatched.
    pub fn log_dispatched(&mut self, n: u64)
        ensures
            final(self).spec_dispatched() == old(self).spec_dispatched().wrapping_add(n),
            final(self).spec_totals() == old(self).spec_totals(),
            final(self).spec_interval_counts() == old(self).spec_interval_counts(),
            final(self).spec_interval_service_sum() == old(self).spec_interval_service_sum(),
            final(self).spec_interval_service_count() == old(self).spec_interval_service_count(),
            final(self).spec_interval_results() == old(self).spec_interval_results(),
            final(self)@ == old(self)@.with_dispatched(n),
    {
        self.dispatched = self.dispatched.wrapping_add(n);
    }

    /// Transactions dispatched but not yet logged; zero when more results
    /// were logged than dispatched.
    pub fn inflight_count(&self) -> (c: u64)
        requires
            self.spec_totals().spec_sum() <= u64::MAX,
        ensures
            c == (if self.spec_dispatched() >= self.spec_totals().spec_sum() {
                self.spec_dispatched() - self.spec_totals().spec_sum()
            } else {
                0
            }),
    {
        self.dispatched.saturating_sub(self.total.sum())
    }
}

} // verus!
