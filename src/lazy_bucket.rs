use vstd::prelude::*;

use crate::decide::{MAX_QUOTA, grants_spec, refill_due, refill_due_spec};
use crate::rate_limiter::RateLimiter;
use crate::tokens::AtomicTokens;
use std::sync::Arc;
use std::sync::atomic::{AtomicU64, Ordering};
use std::time::Duration;

verus! {

/// Relies on `Duration::as_nanos`: the whole nanoseconds of `d`.
#[verifier::external_body]
fn nanos_of(d: &Duration) -> (r: u128) {
    d.as_nanos()
}

/// A count of nanoseconds held in 64 bits, stopping at the largest one.
pub fn saturate_nanos(n: u128) -> (r: u64)
    ensures
        r as int == if n <= u64::MAX as u128 { n as int } else { u64::MAX as int },
{
    if n <= u64::MAX as u128 {
        n as u64
    } else {
        u64::MAX
    }
}

/// The whole nanoseconds of `d`, stopping at the largest count that 64 bits
/// hold (about 584 years).
pub fn duration_nanos(d: &Duration) -> u64 {
    saturate_nanos(nanos_of(d))
}

/// Relies on `SystemTime::elapsed` of the Unix epoch: the time since then,
/// or `None` where the system clock stands before it.
#[verifier::external_body]
fn epoch_elapsed() -> (r: Option<Duration>) {
    match std::time::UNIX_EPOCH.elapsed() {
        Ok(d) => Some(d),
        Err(_) => None,
    }
}

struct LazyBucketShared {
    window_nanos: u64,
    last_updated_nanos: AtomicU64,
    tokens: AtomicTokens,
}

/// A token bucket refilled lazily by the callers of `acquire`, lock-free
/// and without a background worker.
///
/// The caller that first sees a full window elapsed claims the refill with a
/// compare-and-swap on the refill time; only the winner resets the balance,
/// so racing callers never reset it twice. The price is precision: some
/// callers see the old balance for one more round, so fewer requests than
/// the quota may pass under load.
#[derive(Clone)]
pub struct AtomicLazyBucketRateLimiter(Arc<LazyBucketShared>);

/// What one lazy refill attempt did.
#[derive(Debug, Clone, Copy, PartialEq, Eq, Structural)]
pub enum RefillOutcome {
    /// Less than a window has passed since the last refill.
    NotDue,
    /// A refill was due, but another caller claimed it first.
    Lost,
    /// This caller claimed the refill and reset the balance.
    Refilled,
}

impl AtomicLazyBucketRateLimiter {
    pub closed spec fn window_spec(&self) -> u64 {
        self.0.window_nanos
    }

    pub closed spec fn quota_spec(&self) -> int {
        self.0.tokens.quota_spec()
    }

    /// A full bucket of `quota` tokens per window of `window_nanos`
    /// nanoseconds, whose first window starts at `now`.
    pub fn with_window_nanos(window_nanos: u64, quota: u64, now: u64) -> (r: Self)
        requires
            quota <= MAX_QUOTA,
        ensures
            r.window_spec() == window_nanos,
            r.quota_spec() == quota as int,
    {
        AtomicLazyBucketRateLimiter(
            Arc::new(
                LazyBucketShared {
                    window_nanos,
                    last_updated_nanos: AtomicU64::new(now),
                    tokens: AtomicTokens::new(quota),
                },
            ),
        )
    }

    /// The window length in nanoseconds.
    pub fn window_nanos(&self) -> (r: u64)
        ensures
            r == self.window_spec(),
    {
        self.0.window_nanos
    }

    /// Nanoseconds since the Unix epoch; zero where the clock stands before it.
    pub fn now_timestamp_in_nanos() -> u64 {
        match epoch_elapsed() {
            Some(d) => duration_nanos(&d),
            None => 0,
        }
    }

    /// Refills the bucket if a full window has passed since the refill time
    /// `last` that was read at time `now`, unless another caller has moved
    /// the refill time since.
    pub fn refill_from(&self, now: u64, last: u64) -> (r: RefillOutcome)
        ensures
            (r == RefillOutcome::NotDue) <==> !refill_due_spec(
                now as int,
                last as int,
                self.window_spec() as int,
            ),
    {
        if !refill_due(now, last, self.0.window_nanos) {
            return RefillOutcome::NotDue;
        }
        let claim = self.0.last_updated_nanos.compare_exchange(
            last,
            now,
            Ordering::Relaxed,
            Ordering::Relaxed,
        );
        self.settle_refill(claim)
    }

    /// Acts on the compare-and-swap that tried to claim a due refill: the
    /// caller whose swap succeeded resets the balance, the others do not.
    pub fn settle_refill(&self, claim: Result<u64, u64>) -> (r: RefillOutcome)
        ensures
            (r == RefillOutcome::Refilled) <==> claim is Ok,
            (r == RefillOutcome::Lost) <==> claim is Err,
    {
        match claim {
            Ok(_) => {
                self.0.tokens.refill();
                RefillOutcome::Refilled
            },
            Err(_) => RefillOutcome::Lost,
        }
    }

    /// Reads the clock and the last refill time, then refills if due. Also
    /// returns the two times it read.
    pub fn fill_tokens(&self) -> (r: (RefillOutcome, Ghost<u64>, Ghost<u64>))
        ensures
            (r.0 == RefillOutcome::NotDue) <==> !refill_due_spec(
                r.1@ as int,
                r.2@ as int,
                self.window_spec() as int,
            ),
    {
        let now = Self::now_timestamp_in_nanos();
        let last = self.0.last_updated_nanos.load(Ordering::Relaxed);
        (self.refill_from(now, last), Ghost(now), Ghost(last))
    }

    /// Takes one token from the current balance. Also returns the balance
    /// that the take found.
    pub fn do_acquire(&self) -> (r: (Result<(), ()>, Ghost<i64>))
        ensures
            r.0 is Ok <==> grants_spec(r.1@ as int),
    {
        self.0.tokens.acquire()
    }
}

impl RateLimiter for AtomicLazyBucketRateLimiter {
    fn new(duration: Duration, quota: u64) -> (r: Self)
        ensures
            r.quota_spec() == quota as int,
    {
        let window_nanos = duration_nanos(&duration);
        let now = Self::now_timestamp_in_nanos();
        Self::with_window_nanos(window_nanos, quota, now)
    }

    fn acquire(&self) -> Result<(), ()> {
        self.fill_tokens();
        self.do_acquire().0
    }
}

/// A compare-and-swap on a cell holding `cell`: whether it succeeded, and
/// what the cell holds afterwards.
pub open spec fn cas_spec(cell: u64, expected: u64, new: u64) -> (bool, u64) {
    if cell == expected {
        (true, new)
    } else {
        (false, cell)
    }
}

/// How many of the callers that read the refill time `expected` and then
/// try, one after another, to move it to their own `nows` succeed, starting
/// from a cell that holds `cell`.
pub open spec fn refill_winners(cell: u64, expected: u64, nows: Seq<u64>) -> nat
    decreases nows.len(),
{
    if nows.len() == 0 {
        0
    } else {
        let (won, after) = cas_spec(cell, expected, nows[0]);
        (if won { 1nat } else { 0nat }) + refill_winners(after, expected, nows.drop_first())
    }
}

/// Among callers racing to refill after reading the same refill time, at
/// most one wins, so the balance is reset once per window boundary: each
/// found a refill due, and with a window longer than zero the time each
/// writes differs from the one they read.
pub proof fn lemma_single_refill_winner(cell: u64, expected: u64, window: u64, nows: Seq<u64>)
    requires
        window > 0,
        forall|i: int|
            0 <= i < nows.len() ==> refill_due_spec(
                #[trigger] nows[i] as int,
                expected as int,
                window as int,
            ),
    ensures
        refill_winners(cell, expected, nows) <= 1,
        cell != expected ==> refill_winners(cell, expected, nows) == 0,
    decreases nows.len(),
{
    if nows.len() > 0 {
        let rest = nows.drop_first();
        assert forall|i: int| 0 <= i < rest.len() implies refill_due_spec(
            #[trigger] rest[i] as int,
            expected as int,
            window as int,
        ) by {
            assert(rest[i] == nows[i + 1]);
        }
        let (won, after) = cas_spec(cell, expected, nows[0]);
        assert(refill_due_spec(nows[0] as int, expected as int, window as int));
        lemma_single_refill_winner(after, expected, window, rest);
    }
}

} // verus!
