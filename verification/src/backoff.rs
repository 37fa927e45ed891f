//! The backoff policy of blocking acquisition: the wait between attempts
//! starts small and doubles after every unsuccessful attempt, up to a cap.

use vstd::prelude::*;

verus! {

/// First wait between blocking-acquisition attempts, in microseconds.
pub const INITIAL_BACKOFF_MICROS: u64 = 100;

/// Cap on the wait between blocking-acquisition attempts, in microseconds
/// (one second). The wait doubles after every unsuccessful attempt; the cap
/// keeps the doubling from growing without bound.
pub const MAX_BACKOFF_MICROS: u64 = 1000000;

/// The wait that follows `backoff`: doubled, up to the cap.
pub open spec fn spec_next_backoff(backoff: u64) -> u64 {
    if 2 * backoff <= MAX_BACKOFF_MICROS {
        (2 * backoff) as u64
    } else {
        MAX_BACKOFF_MICROS
    }
}

/// Advance the backoff interval after an unsuccessful acquisition attempt.
#[verifier::when_used_as_spec(spec_next_backoff)]
pub fn next_backoff(backoff: u64) -> (r: u64)
    ensures
        r == spec_next_backoff(backoff),
{
    if backoff <= MAX_BACKOFF_MICROS / 2 {
        2 * backoff
    } else {
        MAX_BACKOFF_MICROS
    }
}

} // verus!
