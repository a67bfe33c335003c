use creo_bench::load::{LoadTestTime, RelativeLoadTestTime, ServiceTime, StartTime};
use creo_bench::tracker::{sum_statistics, IntervalStatistics, TotalCounts, Tracker};
use creo_bench::transaction::{
    DroppedCode, FailedCode, LoadGeneratorId, SpecId, TimeoutCode, Transaction, TransactionResult,
};
use creo_bench::virtual_user::VirtualUserId;

fn fresh_transaction() -> Transaction {
    Transaction::new(
        LoadGeneratorId::new(1),
        StartTime::now(LoadTestTime::now()),
        RelativeLoadTestTime::from_millis(200),
    )
}

fn success_result(virtual_user_id: u32, spec_id: usize, response_ms: u64) -> TransactionResult {
    fresh_transaction().into_success(
        VirtualUserId::new(virtual_user_id),
        SpecId::new(spec_id),
        ServiceTime::from_millis(response_ms),
    )
}

fn failed_result(virtual_user_id: u32, spec_id: usize, response_ms: u64) -> TransactionResult {
    fresh_transaction().into_failed(
        VirtualUserId::new(virtual_user_id),
        SpecId::new(spec_id),
        ServiceTime::from_millis(response_ms),
        FailedCode::Send("test error reason".into()),
    )
}

fn timeout_result(virtual_user_id: u32, spec_id: usize, response_ms: u64) -> TransactionResult {
    fresh_transaction().into_timeout(
        VirtualUserId::new(virtual_user_id),
        SpecId::new(spec_id),
        ServiceTime::from_millis(response_ms),
        TimeoutCode::Error("test timeout".into()),
    )
}

fn dropped_result(virtual_user_id: u32) -> TransactionResult {
    fresh_transaction().into_dropped(VirtualUserId::new(virtual_user_id), DroppedCode::Error("test dropped reason".into()))
}

#[test]
fn log_result_measured_variants_increment_their_counts() {
    let mut tracker = Tracker::new();
    tracker.log_result(success_result(0, 0, 50));
    tracker.log_result(success_result(1, 0, 100));
    tracker.log_result(failed_result(2, 1, 75));
    tracker.log_result(failed_result(3, 1, 25));
    tracker.log_result(failed_result(4, 1, 125));
    tracker.log_result(timeout_result(5, 2, 200));
    tracker.log_result(dropped_result(15));

    let stats = tracker.interval_statistics();

    assert_eq!(stats.successful_transactions, 2);
    assert_eq!(stats.failed_transactions, 3);
    assert_eq!(stats.timeout_transactions, 1);
    assert_eq!(stats.dropped_transactions, 1);
    assert_eq!(stats.transaction_results.len(), 7);
}

#[test]
fn average_response_time_excludes_dropped_transactions() {
    let mut tracker = Tracker::new();
    tracker.log_result(success_result(0, 0, 100));
    tracker.log_result(success_result(1, 1, 200));
    tracker.log_result(failed_result(2, 2, 300));
    tracker.log_result(timeout_result(3, 3, 400));
    tracker.log_result(dropped_result(4));
    tracker.log_result(dropped_result(5));

    let stats = tracker.interval_statistics();

    assert_eq!(stats.average_response_time(), 250);
    assert_eq!(stats.dropped_transactions, 2);
    assert_eq!(stats.transaction_results.len(), 6);
}

#[test]
fn average_response_time_returns_weighted_average_across_intervals() {
    let mut tracker = Tracker::new();
    for _ in 0..10 {
        tracker.log_result(success_result(0, 0, 100));
    }
    let first = tracker.interval_statistics();
    for _ in 0..5 {
        tracker.log_result(success_result(0, 0, 400));
    }
    let second = tracker.interval_statistics();

    let combined = first.add(second);
    assert_eq!(combined.average_response_time(), 200);
}

#[test]
fn average_response_time_returns_zero_when_only_dropped_transactions_were_measured() {
    let mut tracker = Tracker::new();
    tracker.log_result(dropped_result(0));
    tracker.log_result(dropped_result(1));
    tracker.log_result(dropped_result(2));

    let stats = tracker.interval_statistics();
    assert_eq!(stats.dropped_transactions, 3);
    assert_eq!(stats.average_response_time(), 0);
}

#[test]
fn sum_of_interval_statistics_matches_add_result() {
    let mut tracker = Tracker::new();
    for _ in 0..3 {
        tracker.log_result(success_result(0, 0, 50));
    }
    for _ in 0..2 {
        tracker.log_result(failed_result(0, 0, 250));
    }
    let first = tracker.interval_statistics();
    for _ in 0..4 {
        tracker.log_result(timeout_result(0, 0, 75));
    }
    tracker.log_result(dropped_result(0));
    let second = tracker.interval_statistics();

    let summed: IntervalStatistics = sum_statistics(vec![first.clone(), second.clone()]);
    let added = first.add(second);

    assert_eq!(summed.successful_transactions, added.successful_transactions);
    assert_eq!(summed.failed_transactions, added.failed_transactions);
    assert_eq!(summed.timeout_transactions, added.timeout_transactions);
    assert_eq!(summed.dropped_transactions, added.dropped_transactions);
    assert_eq!(summed.average_response_time(), added.average_response_time());
    assert_eq!(summed.transaction_results.len(), 10);
}

#[test]
fn interval_statistics_resets_statistics() {
    let mut tracker = Tracker::new();
    tracker.log_result(success_result(0, 0, 10));
    tracker.log_result(failed_result(1, 1, 20));
    tracker.log_result(timeout_result(2, 2, 30));
    tracker.log_result(dropped_result(3));

    let stats = tracker.interval_statistics();
    assert_eq!(stats.successful_transactions, 1);
    assert_eq!(stats.failed_transactions, 1);
    assert_eq!(stats.timeout_transactions, 1);
    assert_eq!(stats.dropped_transactions, 1);
    assert_eq!(stats.transaction_results.len(), 4);

    let stats = tracker.interval_statistics();
    assert_eq!(stats.successful_transactions, 0);
    assert_eq!(stats.failed_transactions, 0);
    assert_eq!(stats.timeout_transactions, 0);
    assert_eq!(stats.dropped_transactions, 0);
    assert_eq!(stats.response_time_sum, 0);
    assert_eq!(stats.response_time_count, 0);
    assert!(stats.transaction_results.is_empty());
}

#[test]
fn empty_tracker_returns_empty_totals_and_statistics() {
    let mut tracker = Tracker::new();
    let stats = tracker.interval_statistics();

    assert_eq!(tracker.totals(), TotalCounts::default());
    assert_eq!(stats.successful_transactions, 0);
    assert_eq!(stats.failed_transactions, 0);
    assert_eq!(stats.timeout_transactions, 0);
    assert_eq!(stats.dropped_transactions, 0);
    assert_eq!(stats.response_time_sum, 0);
    assert_eq!(stats.response_time_count, 0);
    assert!(stats.transaction_results.is_empty());
}

#[test]
fn totals_persists_across_intervals() {
    let mut tracker = Tracker::new();
    tracker.log_result(success_result(0, 0, 10));
    tracker.log_result(failed_result(1, 1, 20));
    tracker.log_result(success_result(2, 2, 30));

    assert_eq!(tracker.totals(), TotalCounts { success: 2, failed: 1, timeout: 0, dropped: 0 });
    tracker.interval_statistics();
    assert_eq!(tracker.totals(), TotalCounts { success: 2, failed: 1, timeout: 0, dropped: 0 });
}

#[test]
fn total_counts_sum_returns_sum_of_all_variants() {
    let counts = TotalCounts { success: 1, failed: 2, timeout: 3, dropped: 4 };
    assert_eq!(counts.sum(), 10);
    assert_eq!(TotalCounts::default().sum(), 0);
}

#[test]
fn log_dispatched_bumps_inflight_count_by_n() {
    let mut tracker = Tracker::new();
    tracker.log_dispatched(5);
    assert_eq!(tracker.inflight_count(), 5);
}

#[test]
fn log_dispatched_and_log_result_cancel() {
    let mut tracker = Tracker::new();
    tracker.log_dispatched(5);
    tracker.log_result(success_result(0, 0, 10));
    tracker.log_result(failed_result(1, 1, 20));
    tracker.log_result(dropped_result(2));
    assert_eq!(tracker.inflight_count(), 2);
}

#[test]
fn inflight_count_is_zero_before_dispatch() {
    let tracker = Tracker::new();
    assert_eq!(tracker.inflight_count(), 0);
}

#[test]
fn inflight_count_reflects_dispatched_before_results_log() {
    let mut tracker = Tracker::new();
    tracker.log_dispatched(5);
    assert_eq!(tracker.inflight_count(), 5);
    for i in 0..5 {
        tracker.log_result(success_result(i, 0, 10));
    }
    assert_eq!(tracker.inflight_count(), 0);
}

#[test]
fn inflight_count_saturates_when_totals_exceed_dispatched() {
    let mut tracker = Tracker::new();
    let target_time = RelativeLoadTestTime::from_secs(1);
    let time_zero = LoadTestTime::now();
    let transaction = Transaction::new(LoadGeneratorId::new(6), StartTime::now(time_zero), target_time);
    tracker.log_result(transaction.into_success(VirtualUserId::new(0), SpecId::new(0), ServiceTime::from_millis(5)));
    assert_eq!(tracker.inflight_count(), 0, "out-of-order log_result must not wrap inflight");
}

#[test]
fn logged_results_keep_their_order_in_the_interval() {
    let mut tracker = Tracker::new();
    tracker.log_result(dropped_result(9));
    tracker.log_result(success_result(3, 1, 10));
    let stats = tracker.interval_statistics();
    assert!(matches!(stats.results()[0], TransactionResult::Dropped { .. }));
    assert!(matches!(stats.results()[1], TransactionResult::Success { .. }));
    assert_eq!(stats.response_time_sum(), 10);
    assert_eq!(stats.response_time_count(), 1);
}
