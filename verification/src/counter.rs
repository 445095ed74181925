//! Counters that the workers share: the live totals for the progress line, and
//! the budget of requests that a run may send.

use std::sync::atomic::{AtomicU64, Ordering};
use vstd::prelude::*;

verus! {

/// Shared live counters updated by workers, read by the progress reporter.
pub struct LiveStats {
    pub requests: AtomicU64,
    pub errors: AtomicU64,
    pub bytes: AtomicU64,
}

impl LiveStats {
    /// Three counters, each made from 0. What an atomic holds is not modelled,
    /// so nothing is stated of them.
    pub fn new() -> (r: Self) {
        LiveStats { requests: AtomicU64::new(0), errors: AtomicU64::new(0), bytes: AtomicU64::new(0) }
    }
}

/// The remaining budget after taking one request from `remaining`: none left
/// to take at 0.
pub open spec fn take_one_spec(remaining: u64) -> Option<u64> {
    if remaining == 0 {
        None
    } else {
        Some((remaining - 1) as u64)
    }
}

/// Takes one request from the budget `remaining`, if any is left.
pub fn take_one(remaining: u64) -> (r: Option<u64>)
    ensures
        r == take_one_spec(remaining),
{
    if remaining == 0 {
        None
    } else {
        Some(remaining - 1)
    }
}

/// `AtomicU64::fetch_update` with `take_one`: it applies `take_one` to the
/// value it reads, and stores the result unless it is `None`, retrying while
/// other threads change the value in between. It gives back `Ok` with the
/// value it replaced, or `Err` with the value at which `take_one` gave `None`.
/// Which value it reads depends on the other threads and is not stated.
#[verifier::external_body]
fn fetch_take_one(counter: &AtomicU64) -> (r: Result<u64, u64>)
    ensures
        r matches Ok(prev) ==> take_one_spec(prev) is Some,
        r matches Err(prev) ==> take_one_spec(prev) is None,
{
    counter.fetch_update(Ordering::AcqRel, Ordering::Relaxed, |x| take_one(x))
}

/// Global counter for coordinating total request limits across workers.
pub struct RequestCounter {
    remaining: AtomicU64,
    unlimited: bool,
    total: Ghost<u64>,
}

impl RequestCounter {
    /// Whether the counter grants every request.
    pub closed spec fn is_unlimited(&self) -> bool {
        self.unlimited
    }

    /// The budget that the counter was made with (0 for none). What remains
    /// of it in the shared atomic is not modelled.
    pub closed spec fn limit(&self) -> u64 {
        self.total@
    }

    /// A counter with a budget of `total` requests; 0 means no limit.
    pub fn new(total: u64) -> (r: Self)
        ensures
            r.is_unlimited() == (total == 0),
            r.limit() == total,
    {
        RequestCounter { remaining: AtomicU64::new(total), unlimited: total == 0, total: Ghost(total) }
    }

    /// Tries to claim one request slot. Without a limit it always succeeds;
    /// with one, it succeeds when it took one from a budget that was not yet
    /// spent. Which of the two happens with a limit depends on the other
    /// threads that share the counter, and is not stated.
    pub fn try_acquire(&self) -> (r: bool)
        ensures
            self.is_unlimited() ==> r,
    {
        if self.unlimited {
            return true;
        }
        claim_granted(fetch_take_one(&self.remaining))
    }
}

/// Whether a claim on the budget granted a slot: where `take_one` took one,
/// which the atomic update reports as `Ok`.
pub fn claim_granted(claim: Result<u64, u64>) -> (r: bool)
    ensures
        r == (claim is Ok),
{
    match claim {
        Ok(_) => true,
        Err(_) => false,
    }
}

/// Whether a worker goes on to send another request: not once it has been
/// told to stop, and otherwise only with a slot claimed from `counter`.
pub fn may_send(stopped: bool, counter: &RequestCounter) -> (r: bool)
    ensures
        stopped ==> !r,
        !stopped && counter.is_unlimited() ==> r,
{
    if stopped {
        false
    } else {
        counter.try_acquire()
    }
}

/// The slots granted by `k` claims, one after the other, on a budget of
/// `remaining`, each claim applying `take_one`. This is a model of the rule
/// that the counter applies, for claims that do not overlap; that the shared
/// atomic counter follows it under concurrent claims rests on
/// `AtomicU64::fetch_update` and is not proved here.
pub open spec fn granted(remaining: u64, k: nat) -> nat
    decreases k,
{
    if k == 0 {
        0
    } else {
        match take_one_spec(remaining) {
            Some(rest) => 1 + granted(rest, (k - 1) as nat),
            None => granted(remaining, (k - 1) as nat),
        }
    }
}

/// Under the `take_one` rule, a budget of `total` grants the first `total` of
/// any number of claims made one after the other, and no more. This is a
/// statement of the model `granted`, not of a shared `RequestCounter`.
pub proof fn lemma_budget_grants(total: u64, k: nat)
    ensures
        granted(total, k) == if k <= total {
            k
        } else {
            total as nat
        },
    decreases k,
{
    if k > 0 {
        if total > 0 {
            lemma_budget_grants((total - 1) as u64, (k - 1) as nat);
        } else {
            lemma_budget_grants(total, (k - 1) as nat);
        }
    }
}

} // verus!
