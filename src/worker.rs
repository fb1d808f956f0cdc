//! Decisions of the persistence worker, which drains the change queue and
//! writes each coalesced batch to durable storage. Running the loop, waiting
//! and writing are left to the caller; this module says what to do next.
use vstd::prelude::*;

verus! {

/// What to do with a batch after one write attempt.
#[derive(Debug, Clone, Copy, PartialEq, Eq, Structural)]
pub enum WriteAction {
    /// The batch is stored.
    Done,
    /// Try again after this many milliseconds.
    RetryAfter(u64),
    /// Attempts are exhausted: report the failure and drop the batch.
    Drop,
}

/// `base` doubled `n` times.
pub open spec fn backoff(base: nat, n: nat) -> nat
    decreases n,
{
    if n == 0 {
        base
    } else {
        2 * backoff(base, (n - 1) as nat)
    }
}

pub open spec fn capped(x: nat) -> u64 {
    if x > u64::MAX {
        u64::MAX
    } else {
        x as u64
    }
}

/// The next step after write attempt number `attempt` (counted from 0) of a
/// batch: done on success; otherwise a retry after `base_delay_ms` doubled
/// once per earlier attempt (capped at `u64::MAX`), until `max_attempts`
/// attempts have been made.
pub fn after_write(succeeded: bool, attempt: u32, max_attempts: u32, base_delay_ms: u64) -> (r:
    WriteAction)
    ensures
        r == if succeeded {
            WriteAction::Done
        } else if attempt as int + 1 >= max_attempts {
            WriteAction::Drop
        } else {
            WriteAction::RetryAfter(capped(backoff(base_delay_ms as nat, attempt as nat)))
        },
{
    if succeeded {
        WriteAction::Done
    } else if attempt >= max_attempts || max_attempts - attempt <= 1 {
        WriteAction::Drop
    } else {
        WriteAction::RetryAfter(retry_delay_ms(attempt, base_delay_ms))
    }
}

/// `base_delay_ms` doubled `attempt` times, saturating at `u64::MAX`.
pub fn retry_delay_ms(attempt: u32, base_delay_ms: u64) -> (r: u64)
    ensures
        r == capped(backoff(base_delay_ms as nat, attempt as nat)),
{
    let mut d: u64 = base_delay_ms;
    let mut k: u32 = 0;
    while k < attempt
        invariant
            k <= attempt,
            d == capped(backoff(base_delay_ms as nat, k as nat)),
        decreases attempt - k,
    {
        if d > u64::MAX / 2 {
            d = u64::MAX;
        } else {
            d = d * 2;
        }
        k += 1;
    }
    d
}

} // verus!
