//! Exponential backoff between the probe attempts of one monitor tick:
//! the delay starts at a base value, doubles after every failed attempt,
//! and is capped.

use vstd::prelude::*;

verus! {

/// Longest delay, in milliseconds, between two probe attempts of one tick.
pub const MAX_BACKOFF_MS: u64 = 30000;

/// The delay, in milliseconds, waited after failed attempt number `attempt`
/// (counting from 0): the base delay doubled `attempt` times, capped at
/// `MAX_BACKOFF_MS`.
pub open spec fn spec_backoff_ms(base_ms: u64, attempt: nat) -> int
    decreases attempt,
{
    if attempt == 0 {
        base_ms as int
    } else {
        let prev = spec_backoff_ms(base_ms, (attempt - 1) as nat);
        if prev * 2 <= MAX_BACKOFF_MS as int {
            prev * 2
        } else {
            MAX_BACKOFF_MS as int
        }
    }
}

/// All delays that a retry policy of `attempts` attempts waits through,
/// in the order they are waited.
pub fn backoff_schedule(base_ms: u64, attempts: usize) -> (r: Vec<u64>)
    ensures
        r.len() == attempts,
        forall|i: int| 0 <= i < attempts ==> r[i] == spec_backoff_ms(base_ms, i as nat),
{
    let mut r: Vec<u64> = Vec::new();
    let mut delay: u64 = base_ms;
    let mut i: usize = 0;
    while i < attempts
        invariant
            i <= attempts,
            r.len() == i,
            delay == spec_backoff_ms(base_ms, i as nat),
            forall|k: int| 0 <= k < i ==> r[k] == spec_backoff_ms(base_ms, k as nat),
        decreases attempts - i,
    {
        r.push(delay);
        delay = if delay <= MAX_BACKOFF_MS / 2 {
            delay * 2
        } else {
            MAX_BACKOFF_MS
        };
        i = i + 1;
    }
    r
}

/// The delays of one tick never shrink and never pass the cap: as long as the
/// base delay itself is below the cap, each delay is at least the one before
/// it and at most `MAX_BACKOFF_MS`.
pub proof fn lemma_backoff_monotone(base_ms: u64, i: nat, j: nat)
    requires
        base_ms <= MAX_BACKOFF_MS,
        i <= j,
    ensures
        spec_backoff_ms(base_ms, i) <= spec_backoff_ms(base_ms, j),
        spec_backoff_ms(base_ms, j) <= MAX_BACKOFF_MS as int,
    decreases j,
{
    lemma_backoff_bounds(base_ms, i);
    lemma_backoff_bounds(base_ms, j);
    if i < j {
        lemma_backoff_monotone(base_ms, i, (j - 1) as nat);
    }
}

/// Every delay stays between zero and the cap when the base delay does.
proof fn lemma_backoff_bounds(base_ms: u64, i: nat)
    requires
        base_ms <= MAX_BACKOFF_MS,
    ensures
        0 <= spec_backoff_ms(base_ms, i) <= MAX_BACKOFF_MS as int,
    decreases i,
{
    if i > 0 {
        lemma_backoff_bounds(base_ms, (i - 1) as nat);
    }
}

} // verus!
