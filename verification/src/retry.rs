//! The retry policy for transient request failures.
//!
//! An idempotent operation is attempted up to ten times; before retry `i`
//! (1-indexed) the caller sleeps `i` seconds.  The first success is returned
//! immediately; when every attempt fails, the error of the final attempt is
//! returned and the earlier ones are discarded.  `RetryState` is the policy's
//! bookkeeping; `retry_with` is the whole loop, with the clock handed in as a
//! sleep action since nothing here may block on its own.

use vstd::prelude::*;

verus! {

/// The number of attempts the policy makes in all: one first try and nine
/// retries.
pub const MAX_ATTEMPTS: u64 = 10;

/// The backoff before retry `i` (1-indexed), in milliseconds: `i` seconds.
pub open spec fn backoff_ms(i: nat) -> nat {
    i * 1000
}

/// The cumulative backoff after `k` failed attempts: 1 + 2 + ... + k seconds.
pub open spec fn total_backoff_ms(k: nat) -> nat
    decreases k,
{
    if k == 0 {
        0
    } else {
        total_backoff_ms((k - 1) as nat) + backoff_ms(k)
    }
}

/// Law: the cumulative backoff after `k` failed attempts is
/// 1 + 2 + ... + k seconds, i.e. k * (k + 1) / 2 seconds.
pub proof fn lemma_total_backoff_closed_form(k: nat)
    ensures
        total_backoff_ms(k) as int == 500 * (k as int) * (k as int + 1),
    decreases k,
{
    if k == 0 {
    } else {
        let km1 = (k - 1) as nat;
        lemma_total_backoff_closed_form(km1);
        assert(total_backoff_ms(k) == total_backoff_ms(km1) + backoff_ms(k));
        let ki = k as int;
        assert(500 * (ki - 1) * ki + ki * 1000 == 500 * ki * (ki + 1)) by (nonlinear_arith);
    }
}

/// The loop counter of one retry sequence: how many attempts have failed so
/// far.
pub struct RetryState {
    pub failures: u64,
}

impl RetryState {
    /// A fresh sequence: no attempt has been made.
    pub fn new() -> (r: RetryState)
        ensures
            r.failures == 0,
    {
        RetryState { failures: 0 }
    }

    /// Records that the attempt just made failed, and decides what follows:
    /// `Some(ms)` says sleep `ms` milliseconds and try again, `None` says give
    /// up and return this failure.
    pub fn on_failure(&mut self) -> (r: Option<u64>)
        requires
            old(self).failures < MAX_ATTEMPTS,
        ensures
            final(self).failures == old(self).failures + 1,
            final(self).failures < MAX_ATTEMPTS <==> r is Some,
            r matches Some(ms) ==> ms == backoff_ms(final(self).failures as nat),
    {
        self.failures = self.failures + 1;
        if self.failures < MAX_ATTEMPTS {
            Some(self.failures * 1000)
        } else {
            None
        }
    }
}

/// Retries `operation` according to the policy, sleeping through `sleep_ms`
/// between attempts.  Whatever comes back — the first success or the final
/// failure — is a value the operation itself returned.
pub fn retry_with<T, E, F: Fn() -> Result<T, E>, S: Fn(u64)>(operation: F, sleep_ms: S) -> (r:
    Result<T, E>)
    requires
        call_requires(operation, ()),
        forall|ms: u64| 1000 <= ms <= 9000 ==> call_requires(sleep_ms, (ms,)),
    ensures
        call_ensures(operation, (), r),
{
    let mut result = operation();
    let mut state = RetryState::new();
    loop
        invariant
            call_requires(operation, ()),
            forall|ms: u64| 1000 <= ms <= 9000 ==> call_requires(sleep_ms, (ms,)),
            call_ensures(operation, (), result),
            state.failures < MAX_ATTEMPTS,
        decreases MAX_ATTEMPTS - state.failures,
    {
        if result.is_ok() {
            return result;
        }
        match state.on_failure() {
            Some(ms) => {
                sleep_ms(ms);
                result = operation();
            },
            None => {
                return result;
            },
        }
    }
}

} // verus!
