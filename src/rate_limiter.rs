use vstd::prelude::*;

use crate::decide::MAX_QUOTA;
use crate::error::RateLimitError;
use std::sync::Arc;
use std::time::Duration;

verus! {

/// A non-blocking source of request quota.
pub trait RateLimiter: Sized {
    /// A limiter that grants `quota` requests per `duration`.
    fn new(duration: Duration, quota: u64) -> Self
        requires
            quota <= MAX_QUOTA,
    ;

    /// Tries to take one unit of quota: `Ok(())` when it was available and
    /// is now consumed, `Err(())` when it was not, with nothing consumed.
    fn acquire(&self) -> Result<(), ()>;
}

/// The outcome of the limiter's answer for one request: a denied
/// acquisition becomes a rate-limit rejection.
pub fn admission(acquired: Result<(), ()>) -> (r: Result<(), RateLimitError>)
    ensures
        r is Ok <==> acquired is Ok,
{
    match acquired {
        Ok(()) => Ok(()),
        Err(()) => Err(RateLimitError),
    }
}

/// Puts a rate limiter, shared by every clone, in front of an inner handler.
#[derive(Clone)]
pub struct RateLimiterService<S, L> {
    inner: S,
    limiter: Arc<L>,
}

impl<S, L: RateLimiter> RateLimiterService<S, L> {
    pub closed spec fn inner_spec(&self) -> S {
        self.inner
    }

    pub closed spec fn limiter_spec(&self) -> L {
        *self.limiter
    }

    /// The handler that admitted requests are forwarded to.
    pub fn inner(&self) -> (r: &S)
        ensures
            *r == self.inner_spec(),
    {
        &self.inner
    }

    /// Decides whether the next request may reach the inner handler: it may
    /// when the limiter grants a unit of quota.
    pub fn check(&self) -> (r: Result<(), RateLimitError>) {
        let acquired = self.limiter.acquire();
        admission(acquired)
    }
}

/// Builds a [`RateLimiterService`] around an inner handler from a limiter.
pub struct RateLimiterLayer<L>(pub L);

impl<L: RateLimiter> RateLimiterLayer<L> {
    /// Wraps `inner`; the limiter becomes shared by the service's clones.
    pub fn layer<S>(self, inner: S) -> (r: RateLimiterService<S, L>)
        ensures
            r.inner_spec() == inner,
            r.limiter_spec() == self.0,
    {
        RateLimiterService { inner, limiter: Arc::new(self.0) }
    }
}

} // verus!
