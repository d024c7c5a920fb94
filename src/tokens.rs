use vstd::prelude::*;

use crate::decide::{MAX_QUOTA, grants, grants_spec};
use std::sync::atomic::{AtomicI64, Ordering};

verus! {

/// A token balance shared by every clone of a limiter, updated only by
/// atomic operations.
///
/// Other callers may change the balance at any moment, so nothing is known
/// of it between two operations; what each operation decides from the value
/// it observed is exact.
///
/// A denied take gives its token back after the fact. Where a refill lands
/// between the take and the give-back, the balance is left one above the
/// quota until the next grant or refill: the bound `tokens <= quota` holds
/// only of a balance that no racing denial is touching.
pub struct AtomicTokens {
    quota: i64,
    tokens: AtomicI64,
}

impl AtomicTokens {
    pub closed spec fn quota_spec(&self) -> int {
        self.quota as int
    }

    /// A full balance of `quota` tokens.
    pub fn new(quota: u64) -> (r: Self)
        requires
            quota <= MAX_QUOTA,
        ensures
            r.quota_spec() == quota as int,
    {
        let q = quota as i64;
        AtomicTokens { quota: q, tokens: AtomicI64::new(q) }
    }

    /// The number of tokens each refill restores.
    pub fn quota(&self) -> (r: i64)
        ensures
            r as int == self.quota_spec(),
    {
        self.quota
    }

    /// Takes one token: the decrement stands when the balance seen before it
    /// was positive, and is undone otherwise. Also returns that balance.
    pub fn acquire(&self) -> (r: (Result<(), ()>, Ghost<i64>))
        ensures
            r.0 is Ok <==> grants_spec(r.1@ as int),
    {
        let prev = self.tokens.fetch_sub(1, Ordering::Relaxed);
        (self.settle(prev), Ghost(prev))
    }

    /// Keeps or gives back the token taken from a balance of `prev`, the
    /// value that the decrement of `acquire` returned.
    pub fn settle(&self, prev: i64) -> (r: Result<(), ()>)
        ensures
            r is Ok <==> grants_spec(prev as int),
    {
        if grants(prev) {
            Ok(())
        } else {
            self.tokens.fetch_add(1, Ordering::Relaxed);
            Err(())
        }
    }

    /// Sets the balance back to the quota.
    pub fn refill(&self) {
        self.tokens.store(self.quota, Ordering::Relaxed);
    }
}

} // verus!
