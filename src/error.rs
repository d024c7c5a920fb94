use vstd::prelude::*;
use vstd::string::StringExecFns;

verus! {

/// Returned by the concurrency limiter when a request is turned away
/// because too many requests are in flight.
#[derive(Debug, Clone, Copy, PartialEq, Eq, Structural)]
pub struct ConcurrencyLimitError;

/// Returned by the rate limiter when the current window's quota is spent.
#[derive(Debug, Clone, Copy, PartialEq, Eq, Structural)]
pub struct RateLimitError;

impl ConcurrencyLimitError {
    /// The human-readable text carried to protocol-level errors.
    pub fn message(&self) -> (r: String)
        ensures
            r@ == "concurrency limited"@,
    {
        String::from_str("concurrency limited")
    }
}

impl RateLimitError {
    /// The human-readable text carried to protocol-level errors.
    pub fn message(&self) -> (r: String)
        ensures
            r@ == "rate limited"@,
    {
        String::from_str("rate limited")
    }
}

} // verus!
