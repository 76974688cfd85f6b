//! Animation system constants.

use vstd::prelude::*;

verus! {

/// Default frame rate when display refresh rate cannot be detected.
pub const DEFAULT_FPS: u32 = 60;

/// Minimum animation duration (ms).
pub const MIN_DURATION_MS: u32 = 100;

/// Maximum animation duration (ms).
pub const MAX_DURATION_MS: u32 = 1000;

/// Minimum dynamic duration for distance-based calculations (ms).
pub const MIN_DYNAMIC_DURATION_MS: u64 = 50;

/// Threshold for spin-wait vs sleep (microseconds).
pub const SPIN_WAIT_THRESHOLD_US: u64 = 1000;

} // verus!
