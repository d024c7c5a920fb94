//! Admission control for request pipelines: a concurrency limiter that
//! bounds the requests in flight, and token-bucket rate limiters that bound
//! the requests accepted per window.
//!
//! The limiters share their counters between clones through atomics. The
//! decisions taken on what an atomic operation observed are proved exact;
//! the single-owner [`bucket::BucketState`] follows the same decisions and
//! carries the laws of the bucket across a run of acquisitions.

pub mod bucket;
pub mod concurrency;
pub mod decide;
pub mod error;
pub mod lazy_bucket;
pub mod rate_limiter;
pub mod tokens;
pub mod worker;

pub use concurrency::{ConcurrencyLimiterService, ConcurrencyLimiterServiceLayer};
pub use error::{ConcurrencyLimitError, RateLimitError};
pub use lazy_bucket::AtomicLazyBucketRateLimiter;
pub use rate_limiter::{RateLimiter, RateLimiterLayer, RateLimiterService};
