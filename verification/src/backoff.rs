//! How long to wait before a connection is tried again.

use vstd::prelude::*;

verus! {

/// The wait after the first failure, in milliseconds.
pub const FIRST_BACKOFF_MS: u64 = 500;

/// The longest wait, in milliseconds.
pub const LAST_BACKOFF_MS: u64 = 30_000;

/// Whether a wait is between the first and the longest.
pub open spec fn is_backoff(backoff_ms: u64) -> bool {
    FIRST_BACKOFF_MS <= backoff_ms <= LAST_BACKOFF_MS
}

/// The wait after one more failure: twice as long, up to the longest.
pub open spec fn doubled(backoff_ms: u64) -> u64 {
    if 2 * backoff_ms <= LAST_BACKOFF_MS {
        (2 * backoff_ms) as u64
    } else {
        LAST_BACKOFF_MS
    }
}

/// The wait after `failures` failures in a row.
pub open spec fn backoff_after(failures: nat) -> u64
    decreases failures,
{
    if failures == 0 {
        FIRST_BACKOFF_MS
    } else {
        doubled(backoff_after((failures - 1) as nat))
    }
}

/// The wait after one more failure.
pub fn next_backoff(backoff_ms: u64) -> (next: u64)
    requires
        is_backoff(backoff_ms),
    ensures
        next == doubled(backoff_ms),
        is_backoff(next),
        next == if backoff_ms <= 15_000 {
            2 * backoff_ms
        } else {
            30_000
        },
{
    if backoff_ms * 2 <= LAST_BACKOFF_MS {
        backoff_ms * 2
    } else {
        LAST_BACKOFF_MS
    }
}

/// A wait that is spread by up to a quarter, so that clients do not come back all at once.
/// `subsec_millis` is the part of the time of day below a second, in milliseconds.
pub fn backoff_with_jitter(base_ms: u64, subsec_millis: u32) -> (delay_ms: u64)
    requires
        base_ms + base_ms / 4 <= u64::MAX,
    ensures
        delay_ms == base_ms + subsec_millis as u64 % (base_ms / 4 + 1) as u64,
        base_ms <= delay_ms <= base_ms + base_ms / 4,
{
    let jitter: u64 = subsec_millis as u64 % (base_ms / 4 + 1);
    base_ms + jitter
}

/// Law: the waits never leave their bounds, never shrink while failures go on, and stay at the
/// longest one once they have reached it.
pub proof fn law_backoff_schedule(failures: nat)
    ensures
        is_backoff(backoff_after(failures)),
        backoff_after(failures) <= backoff_after(failures + 1),
        failures >= 6 <==> backoff_after(failures) == LAST_BACKOFF_MS,
    decreases failures,
{
    reveal_with_fuel(backoff_after, 8);
    if failures > 6 {
        law_backoff_schedule((failures - 1) as nat);
    }
}

/// Law: the waits are those from half a second to half a minute, the first is the shortest, and each
/// is twice the one before it until the longest is reached.
pub proof fn law_backoff_doubles_to_half_a_minute(backoff_ms: u64, failures: nat)
    ensures
        is_backoff(backoff_ms) <==> 500 <= backoff_ms <= 30_000,
        backoff_ms <= 15_000 ==> doubled(backoff_ms) == 2 * backoff_ms,
        backoff_ms > 15_000 ==> doubled(backoff_ms) == 30_000,
        backoff_after(0) == 500,
        backoff_after(failures + 1) == doubled(backoff_after(failures)),
        FIRST_BACKOFF_MS == 500,
{
}

} // verus!
