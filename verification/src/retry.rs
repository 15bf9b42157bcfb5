//! The retry policy for transient failures: bounded exponential backoff.
//!
//! A publish or storage call that fails transiently is retried with a
//! delay that doubles per attempt, up to a configured attempt ceiling;
//! after exhaustion the work is parked for out-of-band replay rather
//! than blocking the consumer. The policy itself is a pure rule from the
//! attempt count to a decision; waiting is the caller's business.

use vstd::prelude::*;

verus! {

/// Bounds for retrying one piece of work.
#[derive(Clone, Copy, Debug, PartialEq, Eq, Structural)]
pub struct RetryPolicy {
    /// How many attempts may be made in all.
    pub max_attempts: u32,
    /// The delay before the second attempt; it doubles from there on.
    pub base_delay_ms: u64,
}

/// What to do after a failed attempt.
#[derive(Clone, Copy, Debug, PartialEq, Eq, Structural)]
pub enum RetryDecision {
    /// Try again after this many milliseconds.
    Retry { delay_ms: u64 },
    /// The ceiling is reached: park the work for out-of-band replay.
    Park,
}

/// The backoff delay before attempt `attempt + 1`: the base delay
/// doubled `attempt` times, saturating at the counter's width.
pub open spec fn backoff_delay(base_delay_ms: u64, attempt: nat) -> u64
    decreases attempt,
{
    if attempt == 0 {
        base_delay_ms
    } else {
        let previous = backoff_delay(base_delay_ms, (attempt - 1) as nat);
        if previous > u64::MAX / 2 {
            u64::MAX
        } else {
            (2 * previous) as u64
        }
    }
}

/// How many doublings precede the attempt after `attempts_made` tries:
/// the first retry waits the base delay itself.
pub open spec fn doublings_for(attempts_made: u32) -> nat {
    if attempts_made > 0 {
        (attempts_made - 1) as nat
    } else {
        0
    }
}

/// Decide what follows a failed attempt. `attempts_made` counts the
/// attempts already made, the failed one included.
pub fn next_retry(policy: &RetryPolicy, attempts_made: u32) -> (r: RetryDecision)
    ensures
        r is Park <==> attempts_made >= policy.max_attempts,
        r matches RetryDecision::Retry { delay_ms } ==> delay_ms == backoff_delay(
            policy.base_delay_ms,
            doublings_for(attempts_made),
        ),
{
    if attempts_made >= policy.max_attempts {
        return RetryDecision::Park;
    }
    let doublings = if attempts_made > 0 {
        attempts_made - 1
    } else {
        0
    };
    let mut delay: u64 = policy.base_delay_ms;
    let mut k: u32 = 0;
    while k < doublings
        invariant
            0 <= k <= doublings,
            delay == backoff_delay(policy.base_delay_ms, k as nat),
        decreases doublings - k,
    {
        delay = if delay > u64::MAX / 2 {
            u64::MAX
        } else {
            delay * 2
        };
        k = k + 1;
    }
    RetryDecision::Retry { delay_ms: delay }
}

} // verus!
