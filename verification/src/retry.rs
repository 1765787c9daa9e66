//! The retry policy: a failed operation is tried again after a delay that
//! doubles with each attempt, up to a bound on the attempts.
//!
//! The policy decides; running the operation and sleeping is left to the
//! caller. Delays are in nanoseconds.

use vstd::prelude::*;

verus! {

/// The default bound on the attempts.
pub const DEFAULT_MAX_ATTEMPTS: u32 = 3;

/// The default delay before the second attempt: one second.
pub const DEFAULT_RETRY_BASE_DELAY: u128 = 1_000_000_000;

/// The longest delay that can be slept: 2^64 - 1 seconds and 999 999 999
/// nanoseconds.
pub const MAX_DELAY: u128 = 18_446_744_073_709_551_615_999_999_999;

/// The factor by which the delay after the failed `attempt` exceeds the
/// base delay: 2 to the power of `attempt - 1`, at most 32.
pub open spec fn factor_for(attempt: nat) -> nat {
    if attempt <= 1 {
        1
    } else if attempt == 2 {
        2
    } else if attempt == 3 {
        4
    } else if attempt == 4 {
        8
    } else if attempt == 5 {
        16
    } else {
        32
    }
}

/// The delay after the failed `attempt`: the base delay times the factor,
/// or the base delay where the product is longer than any delay.
pub open spec fn delay_for(base: nat, attempt: nat) -> nat {
    if base * factor_for(attempt) <= MAX_DELAY {
        base * factor_for(attempt)
    } else {
        base
    }
}

/// Whether a failure of `attempt` is final.
pub open spec fn exhausted(max_attempts: nat, attempt: nat) -> bool {
    attempt >= max_attempts
}

/// The attempt at which a run ends that starts with `attempt`, where
/// `succeeds` says which attempts succeed: the first that succeeds, or the
/// first whose failure is final.
pub open spec fn last_attempt(max_attempts: nat, succeeds: spec_fn(nat) -> bool, attempt: nat)
    -> nat
    decreases max_attempts - attempt,
{
    if succeeds(attempt) || exhausted(max_attempts, attempt) {
        attempt
    } else {
        last_attempt(max_attempts, succeeds, attempt + 1)
    }
}

/// The time slept in all between the attempts `from` up to `to`.
pub open spec fn total_delay(base: nat, from: nat, to: nat) -> nat
    decreases to - from,
{
    if from >= to {
        0
    } else {
        delay_for(base, from) + total_delay(base, from + 1, to)
    }
}

/// The factor by which the delay after the failed `attempt` exceeds the
/// base delay.
pub fn backoff_factor(attempt: u32) -> (f: u32)
    ensures
        f == factor_for(attempt as nat),
{
    let shift: u32 = if attempt == 0 {
        0
    } else if attempt - 1 < 5 {
        attempt - 1
    } else {
        5
    };
    let f: u32 = if shift == 0 {
        1
    } else if shift == 1 {
        2
    } else if shift == 2 {
        4
    } else if shift == 3 {
        8
    } else if shift == 4 {
        16
    } else {
        32
    };
    f
}

/// The delay after the failed `attempt`.
pub fn backoff_delay(base_delay: u128, attempt: u32) -> (d: u128)
    ensures
        d == delay_for(base_delay as nat, attempt as nat),
{
    let factor = backoff_factor(attempt);
    match base_delay.checked_mul(factor as u128) {
        Some(d) => if d <= MAX_DELAY {
            d
        } else {
            base_delay
        },
        None => {
            assert(base_delay * factor_for(attempt as nat) > MAX_DELAY);
            base_delay
        },
    }
}

/// What follows a failed attempt.
#[derive(Debug, Clone, Copy, PartialEq, Eq, Structural)]
pub enum Verdict {
    /// The failure is final: hand the error on as it is.
    GiveUp,
    /// Sleep for the delay, then try again.
    RetryAfter { delay: u128 },
}

/// A run of one operation under the retry policy.
#[derive(Debug, Clone, Copy)]
pub struct Retry {
    max_attempts: u32,
    base_delay: u128,
    attempt: u32,
}

impl Retry {
    /// The bound on the attempts.
    pub closed spec fn bound(&self) -> nat {
        self.max_attempts as nat
    }

    /// The delay before the second attempt.
    pub closed spec fn base(&self) -> nat {
        self.base_delay as nat
    }

    /// The number of the attempt in flight, from 1.
    pub closed spec fn current(&self) -> nat {
        self.attempt as nat
    }

    /// A run whose first attempt is in flight.
    pub fn start(max_attempts: u32, base_delay: u128) -> (r: Retry)
        ensures
            r.bound() == max_attempts,
            r.base() == base_delay,
            r.current() == 1,
    {
        Retry { max_attempts, base_delay, attempt: 1 }
    }

    /// The number of the attempt in flight, from 1.
    pub fn attempt(&self) -> (r: u32)
        ensures
            r == self.current(),
    {
        self.attempt
    }

    /// Records that the attempt in flight failed, and says what follows.
    pub fn failed(&mut self) -> (v: Verdict)
        ensures
            final(self).bound() == old(self).bound(),
            final(self).base() == old(self).base(),
            exhausted(old(self).bound(), old(self).current()) ==> v == Verdict::GiveUp
                && final(self).current() == old(self).current(),
            !exhausted(old(self).bound(), old(self).current()) ==> v == (Verdict::RetryAfter {
                delay: delay_for(old(self).base(), old(self).current()) as u128,
            }) && final(self).current() == old(self).current() + 1,
    {
        if self.attempt >= self.max_attempts {
            Verdict::GiveUp
        } else {
            let delay = backoff_delay(self.base_delay, self.attempt);
            self.attempt = self.attempt + 1;
            Verdict::RetryAfter { delay }
        }
    }
}

/// A run ends no later than at the bound, and at the first attempt where
/// the bound is 0.
pub proof fn law_retry_bound(max_attempts: nat, succeeds: spec_fn(nat) -> bool, attempt: nat)
    requires
        attempt >= 1,
    ensures
        attempt <= last_attempt(max_attempts, succeeds, attempt),
        last_attempt(max_attempts, succeeds, attempt) <= if attempt <= max_attempts {
            max_attempts
        } else {
            attempt
        },
    decreases max_attempts - attempt,
{
    if !(succeeds(attempt) || exhausted(max_attempts, attempt)) {
        law_retry_bound(max_attempts, succeeds, attempt + 1);
    }
}

/// An operation that always fails is called exactly `max_attempts` times
/// (once where the bound is 0), and the failure handed on is that of the
/// last call.
pub proof fn law_retry_always_failing(max_attempts: nat, attempt: nat)
    requires
        attempt >= 1,
    ensures
        last_attempt(max_attempts, |k: nat| false, attempt) == if attempt <= max_attempts {
            max_attempts
        } else {
            attempt
        },
    decreases max_attempts - attempt,
{
    if !exhausted(max_attempts, attempt) {
        law_retry_always_failing(max_attempts, attempt + 1);
    }
}

/// Every attempt before the last one of a run failed, and the last one
/// succeeded unless its failure is final.
pub proof fn law_retry_stops_at_first_success(
    max_attempts: nat,
    succeeds: spec_fn(nat) -> bool,
    attempt: nat,
)
    requires
        attempt >= 1,
    ensures
        forall|k: nat|
            attempt <= k < last_attempt(max_attempts, succeeds, attempt) ==> !#[trigger] succeeds(
                k,
            ),
        succeeds(last_attempt(max_attempts, succeeds, attempt)) || exhausted(
            max_attempts,
            last_attempt(max_attempts, succeeds, attempt),
        ),
    decreases max_attempts - attempt,
{
    if !(succeeds(attempt) || exhausted(max_attempts, attempt)) {
        law_retry_stops_at_first_success(max_attempts, succeeds, attempt + 1);
    }
}

/// With the default policy an operation that always fails is called three
/// times, with waits of one and of two seconds between the calls.
pub proof fn law_default_backoff()
    ensures
        last_attempt(DEFAULT_MAX_ATTEMPTS as nat, |k: nat| false, 1) == 3,
        delay_for(DEFAULT_RETRY_BASE_DELAY as nat, 1) == 1_000_000_000,
        delay_for(DEFAULT_RETRY_BASE_DELAY as nat, 2) == 2_000_000_000,
        total_delay(DEFAULT_RETRY_BASE_DELAY as nat, 1, 3) == 3_000_000_000,
{
    law_retry_always_failing(3, 1);
    reveal_with_fuel(total_delay, 3);
}

/// No delay is shorter than the base delay or longer than 32 times it.
pub proof fn law_delay_bounds(base: nat, attempt: nat)
    ensures
        base <= delay_for(base, attempt) <= 32 * base,
        delay_for(base, attempt) <= MAX_DELAY || delay_for(base, attempt) == base,
{
    assert(base * factor_for(attempt) >= base) by (nonlinear_arith)
        requires
            factor_for(attempt) >= 1,
    ;
    assert(base * factor_for(attempt) <= 32 * base) by (nonlinear_arith)
        requires
            factor_for(attempt) <= 32,
    ;
}

} // verus!
