use std::time::Duration;

use volo_limit::bucket::BucketState;
use volo_limit::concurrency::ConcurrencyLimiterServiceLayer;
use volo_limit::decide::{admits, checked_quota, grants, refill_due, MAX_QUOTA};
use volo_limit::lazy_bucket::{duration_nanos, saturate_nanos, AtomicLazyBucketRateLimiter, RefillOutcome};
use volo_limit::tokens::AtomicTokens;
use volo_limit::worker::{RefillSchedule, Wake, WorkerAction, WorkerLifecycle, WorkerPhase};
use volo_limit::{ConcurrencyLimitError, RateLimitError, RateLimiter, RateLimiterLayer};

const MS: u64 = 1_000_000;

fn wait(d: Duration) {
    let start = std::time::Instant::now();
    while start.elapsed() < d {
        std::hint::spin_loop();
    }
}

#[test]
fn admits_below_the_limit() {
    assert!(!admits(0, 0));
    assert!(admits(1, 2));
    assert!(!admits(2, 2));
    assert!(!admits(3, 2));
    assert!(!admits(u64::MAX, u64::MAX));
    assert!(admits(u64::MAX - 1, u64::MAX));
}

#[test]
fn grants_only_from_a_positive_balance() {
    assert!(grants(1));
    assert!(grants(i64::MAX));
    assert!(!grants(0));
    assert!(!grants(-1));
}

#[test]
fn refill_due_after_a_full_window() {
    assert!(!refill_due(99, 0, 100));
    assert!(refill_due(100, 0, 100));
    assert!(refill_due(u64::MAX, 0, u64::MAX));
    assert!(!refill_due(5, 10, 0));
    assert!(refill_due(10, 10, 0));
}

#[test]
fn quota_must_fit_the_signed_balance() {
    assert_eq!(checked_quota(0), Some(0));
    assert_eq!(checked_quota(MAX_QUOTA), Some(i64::MAX));
    assert_eq!(checked_quota(MAX_QUOTA + 1), None);
    assert_eq!(checked_quota(u64::MAX), None);
}

#[test]
fn bucket_scenario_three_per_hundred_millis() {
    let mut b = BucketState::new(100 * MS, 3, 0);
    assert!(b.acquire_at(0));
    assert!(b.acquire_at(0));
    assert!(b.acquire_at(0));
    assert!(!b.acquire_at(10 * MS));
    assert!(b.acquire_at(110 * MS));
    assert_eq!(b.tokens, 2);
    assert_eq!(b.last_refill_nanos, 110 * MS);
}

#[test]
fn bucket_grants_quota_then_denies() {
    let q: u64 = 5;
    let mut b = BucketState::new(1000, q, 7);
    for _ in 0..q {
        assert!(b.acquire_at(500));
    }
    assert!(!b.acquire_at(1006));
    assert_eq!(b.tokens, 0);
}

#[test]
fn bucket_window_restores_quota() {
    let mut b = BucketState::new(1000, 2, 0);
    assert!(b.acquire_at(0));
    assert!(b.acquire_at(1));
    assert!(!b.acquire_at(2));
    assert!(b.acquire_at(1000));
    assert!(b.acquire_at(1500));
    assert!(!b.acquire_at(1999));
    assert!(b.acquire_at(2000));
}

#[test]
fn bucket_resets_once_per_window() {
    let mut b = BucketState::new(100, 4, 0);
    assert!(b.take());
    assert!(b.refill_at(100));
    assert_eq!(b.tokens, 4);
    assert!(b.take());
    assert!(!b.refill_at(150));
    assert_eq!(b.tokens, 3);
    assert!(!b.refill_at(199));
    assert!(b.refill_at(200));
    assert_eq!(b.tokens, 4);
}

#[test]
fn bucket_ignores_a_clock_going_back() {
    let mut b = BucketState::new(100, 1, 1000);
    assert!(b.take());
    assert!(!b.refill_at(0));
    assert!(!b.acquire_at(500));
}

#[test]
fn bucket_reset_restores_quota() {
    let mut b = BucketState::new(100, 2, 0);
    assert!(b.take());
    assert!(b.take());
    assert!(!b.take());
    b.reset();
    assert_eq!(b.tokens, 2);
    assert_eq!(b.last_refill_nanos, 0);
}

#[test]
fn empty_quota_denies_everything() {
    let mut b = BucketState::new(100, 0, 0);
    assert!(!b.acquire_at(0));
    assert!(!b.acquire_at(100));
    let t = AtomicTokens::new(0);
    assert_eq!(t.acquire().0, Err(()));
    t.refill();
    assert_eq!(t.acquire().0, Err(()));
}

#[test]
fn atomic_tokens_take_and_refill() {
    let t = AtomicTokens::new(2);
    assert_eq!(t.quota(), 2);
    assert_eq!(t.acquire().0, Ok(()));
    assert_eq!(t.acquire().0, Ok(()));
    assert_eq!(t.acquire().0, Err(()));
    assert_eq!(t.acquire().0, Err(()));
    t.refill();
    assert_eq!(t.acquire().0, Ok(()));
    assert_eq!(t.acquire().0, Ok(()));
    assert_eq!(t.acquire().0, Err(()));
}

#[test]
fn lazy_bucket_refill_outcomes() {
    let l = AtomicLazyBucketRateLimiter::with_window_nanos(100, 1, 1000);
    assert_eq!(l.window_nanos(), 100);
    assert_eq!(l.do_acquire().0, Ok(()));
    assert_eq!(l.do_acquire().0, Err(()));
    assert_eq!(l.refill_from(1050, 1000), RefillOutcome::NotDue);
    assert_eq!(l.do_acquire().0, Err(()));
    assert_eq!(l.refill_from(1100, 1000), RefillOutcome::Refilled);
    assert_eq!(l.refill_from(1100, 1000), RefillOutcome::Lost);
    assert_eq!(l.do_acquire().0, Ok(()));
    assert_eq!(l.do_acquire().0, Err(()));
}

#[test]
fn lazy_bucket_converts_the_window() {
    let l = AtomicLazyBucketRateLimiter::new(Duration::from_millis(100), 3);
    assert_eq!(l.window_nanos(), 100 * MS);
    let l = AtomicLazyBucketRateLimiter::new(Duration::new(2, 5), 3);
    assert_eq!(l.window_nanos(), 2_000_000_005);
}

#[test]
fn clock_reads_time_since_epoch() {
    // 2020-01-01T00:00:00Z in nanoseconds
    let t = AtomicLazyBucketRateLimiter::now_timestamp_in_nanos();
    assert!(t > 1_577_836_800_000_000_000);
}

#[test]
fn lazy_bucket_scenario_in_real_time() {
    let l = AtomicLazyBucketRateLimiter::new(Duration::from_millis(100), 3);
    assert_eq!(l.acquire(), Ok(()));
    assert_eq!(l.acquire(), Ok(()));
    assert_eq!(l.acquire(), Ok(()));
    wait(Duration::from_millis(10));
    assert_eq!(l.acquire(), Err(()));
    wait(Duration::from_millis(100));
    assert_eq!(l.acquire(), Ok(()));
}

#[test]
fn lazy_bucket_clones_share_the_balance() {
    let a = AtomicLazyBucketRateLimiter::new(Duration::from_secs(60), 2);
    let b = a.clone();
    assert_eq!(a.acquire(), Ok(()));
    assert_eq!(b.acquire(), Ok(()));
    assert_eq!(a.acquire(), Err(()));
    assert_eq!(b.acquire(), Err(()));
}

#[test]
fn concurrency_scenario_limit_two() {
    let s = ConcurrencyLimiterServiceLayer::with_concurrency_limit(2).layer("inner");
    assert_eq!(s.limit(), 2);
    assert_eq!(*s.inner(), "inner");
    assert_eq!(s.enter().0, Ok(()));
    assert_eq!(s.enter().0, Ok(()));
    assert_eq!(s.enter().0, Err(ConcurrencyLimitError));
    s.leave();
    assert_eq!(s.enter().0, Ok(()));
    assert_eq!(s.enter().0, Err(ConcurrencyLimitError));
}

#[test]
fn concurrency_limit_zero_admits_none() {
    let s = ConcurrencyLimiterServiceLayer::with_concurrency_limit(0).layer(());
    assert_eq!(s.enter().0, Err(ConcurrencyLimitError));
    assert_eq!(s.enter().0, Err(ConcurrencyLimitError));
}

#[test]
fn concurrency_admits_exactly_the_limit() {
    let limit: u64 = 5;
    let s = ConcurrencyLimiterServiceLayer::with_concurrency_limit(limit).layer(());
    for _ in 0..limit {
        assert_eq!(s.enter().0, Ok(()));
    }
    assert_eq!(s.enter().0, Err(ConcurrencyLimitError));
    for _ in 0..limit {
        s.leave();
    }
    for _ in 0..limit {
        assert_eq!(s.enter().0, Ok(()));
    }
    assert_eq!(s.enter().0, Err(ConcurrencyLimitError));
}

#[test]
fn concurrency_clones_share_the_counter() {
    let a = ConcurrencyLimiterServiceLayer::with_concurrency_limit(2).layer(0u8);
    let b = a.clone();
    assert_eq!(a.enter().0, Ok(()));
    assert_eq!(b.enter().0, Ok(()));
    assert_eq!(a.enter().0, Err(ConcurrencyLimitError));
    assert_eq!(b.enter().0, Err(ConcurrencyLimitError));
    a.leave();
    assert_eq!(b.enter().0, Ok(()));
}

#[test]
fn concurrency_settle_decides_on_the_observed_count() {
    let s = ConcurrencyLimiterServiceLayer::with_concurrency_limit(3).layer(());
    assert_eq!(s.settle(2), Ok(()));
    assert_eq!(s.settle(3), Err(ConcurrencyLimitError));
    assert_eq!(s.settle(u64::MAX), Err(ConcurrencyLimitError));
}

#[test]
fn tokens_settle_decides_on_the_observed_balance() {
    let t = AtomicTokens::new(4);
    assert_eq!(t.settle(1), Ok(()));
    assert_eq!(t.settle(0), Err(()));
    assert_eq!(t.settle(-3), Err(()));
}

#[test]
fn nanoseconds_stop_at_the_largest_count() {
    assert_eq!(saturate_nanos(0), 0);
    assert_eq!(saturate_nanos(u64::MAX as u128), u64::MAX);
    assert_eq!(saturate_nanos(u64::MAX as u128 + 1), u64::MAX);
    assert_eq!(duration_nanos(&Duration::new(3, 7)), 3_000_000_007);
    assert_eq!(duration_nanos(&Duration::MAX), u64::MAX);
}

#[test]
fn rate_limiter_service_rejects_past_quota() {
    let l = AtomicLazyBucketRateLimiter::new(Duration::from_secs(60), 2);
    let s = RateLimiterLayer(l).layer(7u32);
    assert_eq!(*s.inner(), 7);
    assert_eq!(s.check(), Ok(()));
    assert_eq!(s.check(), Ok(()));
    assert_eq!(s.check(), Err(RateLimitError));
}

#[test]
fn error_messages() {
    assert_eq!(ConcurrencyLimitError.message(), "concurrency limited");
    assert_eq!(RateLimitError.message(), "rate limited");
}

#[test]
fn schedule_keeps_boundaries_on_the_grid() {
    let mut s = RefillSchedule::new(100);
    assert_eq!(s.deadline_nanos(), 100);
    assert_eq!(s.on_wake(Wake::Deadline), WorkerAction::Refill);
    assert_eq!(s.deadline_nanos(), 200);
    assert_eq!(s.on_wake(Wake::Deadline), WorkerAction::Refill);
    assert_eq!(s.deadline_nanos(), 300);
    assert_eq!(s.on_wake(Wake::Terminate), WorkerAction::Exit);
    assert_eq!(s.deadline_nanos(), 300);
}

#[test]
fn schedule_stops_at_the_largest_time() {
    let mut s = RefillSchedule::new(u64::MAX - 1);
    assert_eq!(s.on_wake(Wake::Deadline), WorkerAction::Refill);
    assert_eq!(s.deadline_nanos(), u64::MAX);
}

#[test]
fn lifecycle_signals_and_joins_once() {
    let mut l = WorkerLifecycle::new();
    assert_eq!(l.phase(), WorkerPhase::Running);
    assert!(l.request_stop());
    assert_eq!(l.phase(), WorkerPhase::Terminating);
    assert!(!l.request_stop());
    l.mark_joined();
    assert_eq!(l.phase(), WorkerPhase::Joined);
    assert!(!l.request_stop());
    l.mark_joined();
    assert_eq!(l.phase(), WorkerPhase::Joined);
}

#[test]
fn lifecycle_join_needs_a_stop_first() {
    let mut l = WorkerLifecycle::new();
    l.mark_joined();
    assert_eq!(l.phase(), WorkerPhase::Running);
}

#[test]
fn lazy_bucket_settles_the_refill_claim() {
    let l = AtomicLazyBucketRateLimiter::with_window_nanos(100, 2, 0);
    assert_eq!(l.do_acquire().0, Ok(()));
    assert_eq!(l.do_acquire().0, Ok(()));
    assert_eq!(l.do_acquire().0, Err(()));
    assert_eq!(l.settle_refill(Err(5)), RefillOutcome::Lost);
    assert_eq!(l.do_acquire().0, Err(()));
    assert_eq!(l.settle_refill(Ok(0)), RefillOutcome::Refilled);
    assert_eq!(l.do_acquire().0, Ok(()));
}

#[test]
fn lazy_bucket_fill_tokens_refills_a_stale_bucket() {
    // a window that started at the epoch has long passed
    let l = AtomicLazyBucketRateLimiter::with_window_nanos(1, 1, 0);
    assert_eq!(l.do_acquire().0, Ok(()));
    assert_eq!(l.do_acquire().0, Err(()));
    assert_eq!(l.fill_tokens().0, RefillOutcome::Refilled);
    assert_eq!(l.do_acquire().0, Ok(()));
    let l = AtomicLazyBucketRateLimiter::with_window_nanos(u64::MAX, 1, 0);
    assert_eq!(l.fill_tokens().0, RefillOutcome::NotDue);
}
