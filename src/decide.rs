use vstd::prelude::*;

verus! {

/// Largest quota a bucket accepts: its balance is a signed 64-bit counter.
pub const MAX_QUOTA: u64 = 9223372036854775807;

/// A request that finds `prev` requests already in flight is admitted
/// when there is room for it below the ceiling.
pub open spec fn admits_spec(prev: int, limit: int) -> bool {
    prev < limit
}

/// A token is handed out when the balance before taking it was positive.
pub open spec fn grants_spec(prev: int) -> bool {
    prev >= 1
}

/// A lazy refill is due once a full window has passed since the last one.
/// A clock that went backwards (`now < last`) never makes a refill due.
pub open spec fn refill_due_spec(now: int, last: int, window: int) -> bool {
    now - last >= window
}

/// Decides the fate of a request that observed `prev` requests in flight.
pub fn admits(prev: u64, limit: u64) -> (r: bool)
    ensures
        r == admits_spec(prev as int, limit as int),
{
    prev < limit
}

/// Decides whether taking a token from a balance of `prev` is a grant.
pub fn grants(prev: i64) -> (r: bool)
    ensures
        r == grants_spec(prev as int),
{
    prev >= 1
}

/// Decides whether a lazy refill is due at time `now`, given the time of
/// the last refill and the window length (all in nanoseconds).
pub fn refill_due(now: u64, last: u64, window: u64) -> (r: bool)
    ensures
        r == refill_due_spec(now as int, last as int, window as int),
{
    now >= last && now - last >= window
}

/// The quota as the bucket's signed balance, or `None` where it does not fit.
pub fn checked_quota(quota: u64) -> (r: Option<i64>)
    ensures
        r is Some <==> quota <= MAX_QUOTA,
        r matches Some(q) ==> q as int == quota as int,
{
    if quota <= MAX_QUOTA {
        Some(quota as i64)
    } else {
        None
    }
}

} // verus!
