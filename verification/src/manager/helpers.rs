//! Helpers of the tiling manager.

use vstd::prelude::*;

verus! {

/// Lock hold time above which contention is reported (ms).
pub const LOCK_CONTENTION_THRESHOLD_MS: u64 = 5;

/// Whether a lock held for `elapsed_ms` milliseconds counts as contention.
pub fn is_lock_contention(elapsed_ms: u64) -> (r: bool)
    ensures
        r == (elapsed_ms > LOCK_CONTENTION_THRESHOLD_MS),
{
    elapsed_ms > LOCK_CONTENTION_THRESHOLD_MS
}

/// Runs `f`, the work done under the lock named `name`, and returns its
/// result unchanged.
///
/// The library reads no clock: a caller that times the call reports it as
/// contention when `is_lock_contention` holds of the time it measured.
pub fn track_lock_time<T, F: FnOnce() -> T>(name: &str, f: F) -> (r: T)
    requires
        f.requires(()),
    ensures
        f.ensures((), r),
{
    f()
}

} // verus!
