//! Admission control: a process-wide token bucket with one-second windows.
//!
//! The budget is the maximum number of requests admitted per second. The
//! bucket refills to the full budget when a request arrives in a later
//! second than the one the bucket currently covers; within one second every
//! admitted request spends one token, and a request that finds the bucket
//! empty is rejected before it reaches the router or the store.

use vstd::prelude::*;

verus! {

/// The default admission budget, in requests per second.
pub const DEFAULT_BUDGET_PER_SECOND: u64 = 50;

/// Token-bucket state: the configured per-second budget, the tokens left in
/// the current window, and the second the current window covers.
#[derive(Clone, Copy, Debug, PartialEq, Eq, Structural)]
pub struct TokenBucket {
    pub budget: u64,
    pub tokens: u64,
    pub window: u64,
}

impl TokenBucket {
    /// The tokens never exceed the budget.
    pub open spec fn wf(self) -> bool {
        self.tokens <= self.budget
    }

    /// A new bucket at time `now`, full for the current second.
    pub fn new(budget: u64, now: u64) -> (b: TokenBucket)
        ensures
            b.wf(),
            b.budget == budget,
            b.tokens == budget,
            b.window == now,
    {
        TokenBucket { budget, tokens: budget, window: now }
    }

    /// Admits or rejects one request arriving at second `now`, spending one
    /// token on admission.
    pub fn allow(&mut self, now: u64) -> (admitted: bool)
        ensures
            admitted == spec_admits(*old(self), now),
            *final(self) == spec_step(*old(self), now),
            old(self).wf() ==> final(self).wf(),
    {
        if now > self.window {
            self.tokens = self.budget;
            self.window = now;
        }
        if self.tokens > 0 {
            self.tokens = self.tokens - 1;
            true
        } else {
            false
        }
    }
}

/// The bucket as a request arriving at second `now` finds it: refilled to
/// the full budget when `now` lies past the current window, untouched
/// otherwise.
pub open spec fn spec_refill(b: TokenBucket, now: u64) -> TokenBucket {
    if now > b.window {
        TokenBucket { budget: b.budget, tokens: b.budget, window: now }
    } else {
        b
    }
}

/// Whether a request arriving at second `now` is admitted.
pub open spec fn spec_admits(b: TokenBucket, now: u64) -> bool {
    spec_refill(b, now).tokens > 0
}

/// The bucket after one request arriving at second `now`: refilled first,
/// then one token spent if the request was admitted.
pub open spec fn spec_step(b: TokenBucket, now: u64) -> TokenBucket {
    let r = spec_refill(b, now);
    if r.tokens > 0 {
        TokenBucket { budget: r.budget, tokens: (r.tokens - 1) as u64, window: r.window }
    } else {
        r
    }
}

/// How many of `n` requests, all arriving within the second `now`, are
/// admitted by a bucket currently on that window.
pub open spec fn spec_admitted_count(b: TokenBucket, n: nat, now: u64) -> nat
    decreases n,
{
    if n == 0 {
        0
    } else {
        (if spec_admits(b, now) {
            1nat
        } else {
            0nat
        }) + spec_admitted_count(spec_step(b, now), (n - 1) as nat, now)
    }
}

/// Of `n` requests arriving within the bucket's current second, exactly as
/// many are admitted as there are tokens left, and no more: `min(n, tokens)`.
/// In particular, once the budget is exhausted every further request in that
/// second is rejected.
pub proof fn lemma_same_second_admission_count(b: TokenBucket, n: nat, now: u64)
    requires
        b.window == now,
    ensures
        spec_admitted_count(b, n, now) == if n <= b.tokens {
            n as int
        } else {
            b.tokens as int
        },
    decreases n,
{
    if n > 0 {
        lemma_same_second_admission_count(spec_step(b, now), (n - 1) as nat, now);
    }
}

/// With a budget of one request per second and a full bucket, of two
/// requests arriving within the same second exactly the first is admitted;
/// the second is rejected and so never reaches the router or the store.
pub proof fn lemma_budget_exhaustion(b: TokenBucket, now: u64)
    requires
        b.budget == 1,
        b.tokens == 1,
        b.window == now,
    ensures
        spec_admits(b, now),
        !spec_admits(spec_step(b, now), now),
        spec_admitted_count(b, 2, now) == 1,
{
    lemma_same_second_admission_count(b, 2, now);
}

} // verus!
