//! The retry budget and the exponential backoff schedule: the delay before
//! attempt `k` is `min(initial_delay * 2^k, max_delay)`, so delays double
//! until they reach the cap and stay there.

use vstd::arithmetic::mul::lemma_mul_inequality;
use vstd::arithmetic::power2::lemma_pow2_pos;
use vstd::arithmetic::power2::lemma_pow2_strictly_increases;
use vstd::arithmetic::power2::lemma_pow2_unfold;
use vstd::arithmetic::power2::pow2;
use vstd::prelude::*;

verus! {

/// Delay before the first retry, in seconds.
pub const INITIAL_DELAY_SECS: u64 = 1;

/// Cap on the backoff delay, in seconds.
pub const MAX_DELAY_SECS: u64 = 300;

/// Retry budget for one chunk's ingestion, supplied by the caller and
/// read-only thereafter: an optional cap on the attempt counter (retrying
/// is unbounded when it is absent), the initial backoff delay, and the
/// delay cap.  The growth factor is fixed: each backoff doubles the delay.
#[derive(Clone, Copy, Debug)]
pub struct RetryBudget {
    pub max_attempts: Option<u32>,
    pub initial_delay_secs: u64,
    pub max_delay_secs: u64,
}

impl RetryBudget {
    /// The engine's stock schedule: delays grow from one second, doubling,
    /// capped at five minutes, with the given cap on attempts.
    pub fn standard(max_attempts: Option<u32>) -> (r: RetryBudget)
        ensures
            r.max_attempts == max_attempts,
            r.initial_delay_secs == INITIAL_DELAY_SECS,
            r.max_delay_secs == MAX_DELAY_SECS,
    {
        RetryBudget {
            max_attempts,
            initial_delay_secs: INITIAL_DELAY_SECS,
            max_delay_secs: MAX_DELAY_SECS,
        }
    }
}

/// The delay, in seconds, before attempt `k`:
/// `min(initial * 2^k, max)`.
pub open spec fn backoff_delay_spec(initial: u64, max: u64, k: nat) -> int {
    if initial * pow2(k) <= max {
        (initial * pow2(k)) as int
    } else {
        max as int
    }
}

/// Computes the backoff delay before attempt `attempt`:
/// `min(initial_delay * 2^attempt, max_delay)`.
pub fn backoff_delay(budget: &RetryBudget, attempt: u32) -> (r: u64)
    ensures
        r == backoff_delay_spec(budget.initial_delay_secs, budget.max_delay_secs, attempt as nat),
{
    let initial = budget.initial_delay_secs;
    let max = budget.max_delay_secs;
    let mut d: u64 = initial;
    let mut i: u32 = 0;
    proof {
        vstd::arithmetic::power2::lemma2_to64();
    }
    while i < attempt
        invariant
            i <= attempt,
            d == initial * pow2(i as nat),
            max == budget.max_delay_secs,
            initial == budget.initial_delay_secs,
        decreases attempt - i,
    {
        if d >= max {
            proof {
                lemma_mul_pow2_le(initial, i as nat, attempt as nat);
            }
            return max;
        }
        if d > u64::MAX / 2 {
            proof {
                lemma_pow2_unfold(i as nat + 1);
                assert(initial * pow2(i as nat + 1) == 2 * (initial * pow2(i as nat)))
                    by (nonlinear_arith)
                    requires
                        pow2(i as nat + 1) == 2 * pow2(i as nat),
                ;
                lemma_mul_pow2_le(initial, i as nat + 1, attempt as nat);
            }
            return max;
        }
        proof {
            lemma_pow2_unfold(i as nat + 1);
            assert(initial * pow2(i as nat + 1) == 2 * (initial * pow2(i as nat)))
                by (nonlinear_arith)
                requires
                    pow2(i as nat + 1) == 2 * pow2(i as nat),
            ;
        }
        d = d * 2;
        i = i + 1;
    }
    if d <= max {
        d
    } else {
        max
    }
}

/// The uncapped delay only grows with the attempt counter.
proof fn lemma_mul_pow2_le(initial: u64, k1: nat, k2: nat)
    requires
        k1 <= k2,
    ensures
        initial * pow2(k1) <= initial * pow2(k2),
{
    if k1 < k2 {
        lemma_pow2_strictly_increases(k1, k2);
    }
    lemma_pow2_pos(k1);
    lemma_pow2_pos(k2);
    lemma_mul_inequality(pow2(k1) as int, pow2(k2) as int, initial as int);
    assert(pow2(k1) as int * initial as int == initial * pow2(k1)) by (nonlinear_arith);
    assert(pow2(k2) as int * initial as int == initial * pow2(k2)) by (nonlinear_arith);
}

/// Backoff monotonicity: the delay before attempt `k` is
/// `min(initial * 2^k, max)`, and the schedule is non-decreasing in the
/// attempt counter until it reaches the cap, where it stays.
pub proof fn lemma_backoff_monotonic(initial: u64, max: u64, k1: nat, k2: nat)
    requires
        k1 <= k2,
    ensures
        backoff_delay_spec(initial, max, k1) <= backoff_delay_spec(initial, max, k2),
        backoff_delay_spec(initial, max, k1) <= max,
{
    lemma_mul_pow2_le(initial, k1, k2);
}

} // verus!
