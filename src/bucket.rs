use vstd::prelude::*;

use crate::decide::{MAX_QUOTA, grants, grants_spec, refill_due, refill_due_spec};

verus! {

/// A token bucket held by a single owner: the plain-value counterpart of the
/// lock-free buckets, following the same decisions step by step.
///
/// Times are nanoseconds on a clock chosen by the caller.
pub struct BucketState {
    pub window_nanos: u64,
    pub quota: i64,
    pub tokens: i64,
    pub last_refill_nanos: u64,
}

impl BucketState {
    /// The balance never exceeds the quota and never drops below zero. With
    /// one owner this always holds; the shared atomic balance may stand one
    /// above the quota for a moment, when a denied take gives its token back
    /// after a racing refill.
    pub open spec fn wf(&self) -> bool {
        0 <= self.tokens <= self.quota
    }

    /// The state after a lazy refill attempt at `now`.
    pub open spec fn refill_spec(self, now: u64) -> BucketState {
        if refill_due_spec(now as int, self.last_refill_nanos as int, self.window_nanos as int) {
            BucketState { tokens: self.quota, last_refill_nanos: now, ..self }
        } else {
            self
        }
    }

    /// The state after trying to take one token: a grant costs one token,
    /// a denial leaves the balance as it was.
    pub open spec fn take_spec(self) -> BucketState {
        if grants_spec(self.tokens as int) {
            BucketState { tokens: (self.tokens - 1) as i64, ..self }
        } else {
            self
        }
    }

    /// Whether an acquisition at `now` is granted.
    pub open spec fn acquire_granted(self, now: u64) -> bool {
        grants_spec(self.refill_spec(now).tokens as int)
    }

    /// The state after an acquisition at `now`: lazy refill, then one take.
    pub open spec fn acquire_spec(self, now: u64) -> BucketState {
        self.refill_spec(now).take_spec()
    }

    /// A full bucket whose window starts at `now`.
    pub fn new(window_nanos: u64, quota: u64, now: u64) -> (r: Self)
        requires
            quota <= MAX_QUOTA,
        ensures
            r.wf(),
            r.window_nanos == window_nanos,
            r.quota as int == quota as int,
            r.tokens == r.quota,
            r.last_refill_nanos == now,
    {
        BucketState {
            window_nanos,
            quota: quota as i64,
            tokens: quota as i64,
            last_refill_nanos: now,
        }
    }

    /// Refills the bucket if a full window has passed since the last refill;
    /// returns whether it did.
    pub fn refill_at(&mut self, now: u64) -> (r: bool)
        requires
            old(self).wf(),
        ensures
            final(self).wf(),
            r == refill_due_spec(
                now as int,
                old(self).last_refill_nanos as int,
                old(self).window_nanos as int,
            ),
            *final(self) == old(self).refill_spec(now),
    {
        if refill_due(now, self.last_refill_nanos, self.window_nanos) {
            self.tokens = self.quota;
            self.last_refill_nanos = now;
            true
        } else {
            false
        }
    }

    /// Takes one token if the balance is positive; returns whether it did.
    pub fn take(&mut self) -> (r: bool)
        requires
            old(self).wf(),
        ensures
            final(self).wf(),
            r == grants_spec(old(self).tokens as int),
            *final(self) == old(self).take_spec(),
    {
        if grants(self.tokens) {
            self.tokens = self.tokens - 1;
            true
        } else {
            false
        }
    }

    /// Sets the balance back to the quota, as a background refill does at
    /// each window boundary.
    pub fn reset(&mut self)
        requires
            old(self).wf(),
        ensures
            final(self).wf(),
            *final(self) == (BucketState { tokens: old(self).quota, ..*old(self) }),
    {
        self.tokens = self.quota;
    }

    /// Acquires one token at time `now`: refills lazily, then takes.
    pub fn acquire_at(&mut self, now: u64) -> (r: bool)
        requires
            old(self).wf(),
        ensures
            final(self).wf(),
            r == old(self).acquire_granted(now),
            *final(self) == old(self).acquire_spec(now),
    {
        self.refill_at(now);
        self.take()
    }
}

/// The outcomes of acquisitions made one after another at the given times.
pub open spec fn acquire_outcomes(s: BucketState, times: Seq<u64>) -> Seq<bool>
    decreases times.len(),
{
    if times.len() == 0 {
        Seq::empty()
    } else {
        seq![s.acquire_granted(times[0])] + acquire_outcomes(
            s.acquire_spec(times[0]),
            times.drop_first(),
        )
    }
}

/// Whether no time of `times` is a full window or more past `since`.
pub open spec fn within_window(times: Seq<u64>, since: u64, window: u64) -> bool {
    forall|i: int| 0 <= i < times.len() ==> !refill_due_spec(times[i] as int, since as int, window as int)
}

/// Within one window the `i`-th acquisition is granted exactly when `i` is
/// below the balance the window started with.
pub proof fn lemma_grants_follow_balance(s: BucketState, times: Seq<u64>)
    requires
        s.wf(),
        within_window(times, s.last_refill_nanos, s.window_nanos),
    ensures
        acquire_outcomes(s, times).len() == times.len(),
        forall|i: int| 0 <= i < times.len() ==> acquire_outcomes(s, times)[i] == (i < s.tokens),
    decreases times.len(),
{
    if times.len() > 0 {
        let s2 = s.acquire_spec(times[0]);
        let rest = times.drop_first();
        assert(within_window(rest, s2.last_refill_nanos, s2.window_nanos)) by {
            assert forall|i: int| 0 <= i < rest.len() implies !refill_due_spec(
                rest[i] as int,
                s2.last_refill_nanos as int,
                s2.window_nanos as int,
            ) by {
                assert(rest[i] == times[i + 1]);
            }
        }
        lemma_grants_follow_balance(s2, rest);
        let out = acquire_outcomes(s, times);
        assert forall|i: int| 0 <= i < times.len() implies out[i] == (i < s.tokens) by {
            if i > 0 {
                assert(out[i] == acquire_outcomes(s2, rest)[i - 1]);
            }
        }
    }
}

/// A full bucket grants its whole quota within one window, one acquisition
/// after another, and denies the next acquisition in that window.
pub proof fn lemma_quota_exhausts_within_window(s: BucketState, times: Seq<u64>)
    requires
        s.wf(),
        s.tokens == s.quota,
        times.len() == s.quota + 1,
        within_window(times, s.last_refill_nanos, s.window_nanos),
    ensures
        forall|i: int| 0 <= i < s.quota ==> acquire_outcomes(s, times)[i],
        !acquire_outcomes(s, times)[s.quota as int],
{
    lemma_grants_follow_balance(s, times);
}

/// Once a full window has passed since the last refill, the bucket again
/// grants its whole quota within the new window, and no more.
pub proof fn lemma_window_restores_quota(s: BucketState, times: Seq<u64>)
    requires
        s.wf(),
        times.len() == s.quota + 1,
        refill_due_spec(times[0] as int, s.last_refill_nanos as int, s.window_nanos as int),
        within_window(times.drop_first(), times[0], s.window_nanos),
    ensures
        forall|i: int| 0 <= i < s.quota ==> acquire_outcomes(s, times)[i],
        !acquire_outcomes(s, times)[s.quota as int],
{
    let s2 = s.acquire_spec(times[0]);
    let rest = times.drop_first();
    lemma_grants_follow_balance(s2, rest);
    let out = acquire_outcomes(s, times);
    assert forall|i: int| 0 <= i <= s.quota implies out[i] == (i < s.quota) by {
        if i > 0 {
            assert(out[i] == acquire_outcomes(s2, rest)[i - 1]);
        }
    }
}

/// A refill sets the balance to the quota, never above it, and no second
/// refill comes before another full window has passed.
pub proof fn lemma_one_reset_per_window(s: BucketState, t1: u64, t2: u64)
    requires
        s.wf(),
        refill_due_spec(t1 as int, s.last_refill_nanos as int, s.window_nanos as int),
        !refill_due_spec(t2 as int, t1 as int, s.window_nanos as int),
    ensures
        s.refill_spec(t1).tokens == s.quota,
        s.refill_spec(t1).refill_spec(t2) == s.refill_spec(t1),
{
}

} // verus!
