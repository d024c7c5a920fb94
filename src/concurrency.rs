use vstd::prelude::*;

use crate::decide::{admits, admits_spec};
use crate::error::ConcurrencyLimitError;
use std::sync::Arc;
use std::sync::atomic::{AtomicU64, Ordering};

verus! {

struct ConcurrencyLimiterState {
    limit: u64,
    curr: AtomicU64,
}

/// Bounds the number of requests that are inside an inner handler at once.
///
/// Every clone shares one in-flight counter. A request increments it and is
/// admitted when the count it saw before its own increment is below the
/// limit, so at most `limit` admitted requests are inside at once. A
/// rejected request holds its increment until it takes it back, so a
/// request racing with it may be turned away although a slot was free.
#[derive(Clone)]
pub struct ConcurrencyLimiterService<S> {
    inner: S,
    status: Arc<ConcurrencyLimiterState>,
}

impl<S> ConcurrencyLimiterService<S> {
    pub closed spec fn limit_spec(&self) -> u64 {
        self.status.limit
    }

    pub closed spec fn inner_spec(&self) -> S {
        self.inner
    }

    /// The configured ceiling.
    pub fn limit(&self) -> (r: u64)
        ensures
            r == self.limit_spec(),
    {
        self.status.limit
    }

    /// The handler that admitted requests are forwarded to.
    pub fn inner(&self) -> (r: &S)
        ensures
            *r == self.inner_spec(),
    {
        &self.inner
    }

    /// Registers a request as in flight, or turns it away. An admitted
    /// request must be followed by one call of `leave` once the inner
    /// handler is done with it, whatever its outcome.
    ///
    /// Also returns the count that the request found in flight.
    pub fn enter(&self) -> (r: (Result<(), ConcurrencyLimitError>, Ghost<u64>))
        ensures
            r.0 is Ok <==> admits_spec(r.1@ as int, self.limit_spec() as int),
    {
        let prev = self.status.curr.fetch_add(1, Ordering::Relaxed);
        (self.settle(prev), Ghost(prev))
    }

    /// Keeps the increment of a request that saw `prev` requests in flight,
    /// or takes it back and rejects the request. `prev` is what the
    /// increment of `enter` returned.
    pub fn settle(&self, prev: u64) -> (r: Result<(), ConcurrencyLimitError>)
        ensures
            r is Ok <==> admits_spec(prev as int, self.limit_spec() as int),
    {
        if admits(prev, self.status.limit) {
            Ok(())
        } else {
            self.status.curr.fetch_sub(1, Ordering::Relaxed);
            Err(ConcurrencyLimitError)
        }
    }

    /// Marks an admitted request as finished.
    pub fn leave(&self) {
        self.status.curr.fetch_sub(1, Ordering::Relaxed);
    }
}

/// Builds a [`ConcurrencyLimiterService`] around an inner handler.
pub struct ConcurrencyLimiterServiceLayer {
    limit: u64,
}

impl ConcurrencyLimiterServiceLayer {
    pub closed spec fn limit_spec(&self) -> u64 {
        self.limit
    }

    /// A layer whose services admit requests against the ceiling `limit`.
    pub fn with_concurrency_limit(limit: u64) -> (r: Self)
        ensures
            r.limit_spec() == limit,
    {
        Self { limit }
    }

    /// Wraps `inner` with a fresh counter at zero.
    pub fn layer<S>(self, inner: S) -> (r: ConcurrencyLimiterService<S>)
        ensures
            r.limit_spec() == self.limit_spec(),
            r.inner_spec() == inner,
    {
        ConcurrencyLimiterService {
            inner,
            status: Arc::new(ConcurrencyLimiterState { limit: self.limit, curr: AtomicU64::new(0) }),
        }
    }
}

/// The in-flight count after one request tries to enter: an admitted
/// request keeps its increment, a rejected one takes it back.
pub open spec fn enter_spec(curr: int, limit: int) -> int {
    if admits_spec(curr, limit) {
        curr + 1
    } else {
        curr
    }
}

/// The outcomes of `n` requests that try to enter one after another, none
/// of them leaving, starting from `curr` in flight.
pub open spec fn enter_outcomes(curr: int, limit: int, n: nat) -> Seq<bool>
    decreases n,
{
    if n == 0 {
        Seq::empty()
    } else {
        seq![admits_spec(curr, limit)] + enter_outcomes(enter_spec(curr, limit), limit, (n - 1) as nat)
    }
}

/// From `curr` in flight, the `i`-th of a run of entering requests is
/// admitted exactly when `curr + i` is below the limit.
pub proof fn lemma_enter_outcomes(curr: int, limit: int, n: nat)
    requires
        0 <= curr,
    ensures
        enter_outcomes(curr, limit, n).len() == n,
        forall|i: int| 0 <= i < n ==> enter_outcomes(curr, limit, n)[i] == (curr + i < limit),
    decreases n,
{
    if n > 0 {
        let next = enter_spec(curr, limit);
        lemma_enter_outcomes(next, limit, (n - 1) as nat);
        let out = enter_outcomes(curr, limit, n);
        assert forall|i: int| 0 <= i < n implies out[i] == (curr + i < limit) by {
            if i > 0 {
                assert(out[i] == enter_outcomes(next, limit, (n - 1) as nat)[i - 1]);
            }
        }
    }
}

/// With nothing in flight, a run of requests that hold on is admitted up to
/// `limit` of them and the next is rejected; a request that finds `limit` or
/// more in flight is rejected and leaves the count as it was; when one of
/// `limit` admitted requests leaves, exactly one more is admitted and the
/// one after it is rejected.
pub proof fn lemma_ceiling_holds(limit: u64, n: int)
    ensures
        forall|i: int| 0 <= i < limit ==> #[trigger] enter_outcomes(0, limit as int, limit as nat + 1)[i],
        !enter_outcomes(0, limit as int, limit as nat + 1)[limit as int],
        n >= limit ==> !admits_spec(n, limit as int) && enter_spec(n, limit as int) == n,
        limit >= 1 ==> enter_outcomes(limit - 1, limit as int, 2) == seq![true, false],
{
    lemma_enter_outcomes(0, limit as int, limit as nat + 1);
    if limit >= 1 {
        lemma_enter_outcomes(limit - 1, limit as int, 2);
        assert(enter_outcomes(limit - 1, limit as int, 2) =~= seq![true, false]);
    }
}

} // verus!
