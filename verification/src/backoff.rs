//! The wait between two health checks: exponential in the number of failed
//! attempts, with the exponent held at five and the delay held at a maximum.

use crate::duration::duration_of_secs;
use std::time::Duration;
use vstd::arithmetic::power2::{lemma2_to64, lemma_pow2_strictly_increases, pow2};
use vstd::prelude::*;

verus! {

/// The largest exponent that the delay grows to.
pub const MAX_EXPONENT: u32 = 5;

/// The base delay where none is given, in seconds.
pub const DEFAULT_BASE_DELAY_SECS: u64 = 15;

/// The maximum delay where none is given, in seconds.
pub const DEFAULT_MAX_DELAY_SECS: u64 = 300;

/// The delay in seconds before retry number `attempt` (counted from zero):
/// the base delay doubled once per attempt, up to five times, and never more
/// than the maximum.
pub open spec fn backoff_secs(attempt: nat, base: nat, max: nat) -> nat {
    let grown = base * pow2(exponent(attempt));
    if grown < max {
        grown
    } else {
        max
    }
}

/// The exponent for retry number `attempt`: the attempt itself, held at five.
pub open spec fn exponent(attempt: nat) -> nat {
    if attempt < MAX_EXPONENT {
        attempt
    } else {
        MAX_EXPONENT as nat
    }
}

/// Two to the power `min(attempt, 5)`.
fn growth_factor(attempt: u32) -> (factor: u64)
    ensures
        factor == pow2(exponent(attempt as nat)),
        1 <= factor <= 32,
{
    let steps: u32 = if attempt < MAX_EXPONENT {
        attempt
    } else {
        MAX_EXPONENT
    };
    let mut factor: u64 = 1;
    let mut k: u32 = 0;
    proof {
        lemma2_to64();
    }
    while k < steps
        invariant
            k <= steps <= 5,
            factor == pow2(k as nat),
            factor <= 32,
        decreases steps - k,
    {
        proof {
            lemma2_to64();
        }
        factor = factor * 2;
        k = k + 1;
    }
    factor
}

/// The delay in seconds before retry number `attempt`.
pub fn backoff_delay_secs(attempt: u32, base_delay_secs: u64, max_delay_secs: u64) -> (secs: u64)
    ensures
        secs == backoff_secs(attempt as nat, base_delay_secs as nat, max_delay_secs as nat),
{
    let factor = growth_factor(attempt);
    match base_delay_secs.checked_mul(factor) {
        Some(grown) => if grown < max_delay_secs {
            grown
        } else {
            max_delay_secs
        },
        None => max_delay_secs,
    }
}

/// The time to wait before retry number `attempt`. Without a base delay the
/// base is 15 seconds; without a maximum the maximum is 300 seconds.
pub fn calculate_backoff(
    attempt: u32,
    base_delay_secs: Option<u64>,
    max_delay_secs: Option<u64>,
) -> (delay: Duration)
    ensures
        delay == duration_of_secs(
            backoff_secs(
                attempt as nat,
                base_delay_secs.unwrap_or(DEFAULT_BASE_DELAY_SECS) as nat,
                max_delay_secs.unwrap_or(DEFAULT_MAX_DELAY_SECS) as nat,
            ) as u64,
        ),
{
    let base = base_delay_secs.unwrap_or(DEFAULT_BASE_DELAY_SECS);
    let max = max_delay_secs.unwrap_or(DEFAULT_MAX_DELAY_SECS);
    Duration::from_secs(backoff_delay_secs(attempt, base, max))
}

/// The delay never exceeds the maximum.
pub proof fn lemma_backoff_bounded(attempt: nat, base: nat, max: nat)
    ensures
        backoff_secs(attempt, base, max) <= max,
{
}

/// For a fixed base and maximum, a later attempt never waits less than an
/// earlier one.
pub proof fn lemma_backoff_monotonic(earlier: nat, later: nat, base: nat, max: nat)
    requires
        earlier <= later,
    ensures
        backoff_secs(earlier, base, max) <= backoff_secs(later, base, max),
{
    let e1 = exponent(earlier);
    let e2 = exponent(later);
    if e1 < e2 {
        lemma_pow2_strictly_increases(e1, e2);
    }
    assert(base * pow2(e1) <= base * pow2(e2)) by (nonlinear_arith)
        requires
            pow2(e1) <= pow2(e2),
    ;
}

/// From the fifth retry on the delay no longer changes, and where 32 times
/// the base reaches the maximum it is the maximum itself.
pub proof fn lemma_backoff_cap(attempt: nat, base: nat, max: nat)
    requires
        attempt >= MAX_EXPONENT,
    ensures
        backoff_secs(attempt, base, max) == backoff_secs(MAX_EXPONENT as nat, base, max),
        backoff_secs(attempt, base, max) == if 32 * base < max {
            32 * base
        } else {
            max
        },
        32 * base >= max ==> backoff_secs(attempt, base, max) == max,
{
    lemma2_to64();
    assert(base * pow2(exponent(attempt)) == 32 * base) by (nonlinear_arith)
        requires
            pow2(exponent(attempt)) == 32,
    ;
}

} // verus!
