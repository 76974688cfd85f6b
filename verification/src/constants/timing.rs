//! Timing constants for event handling and debouncing.

use vstd::prelude::*;

verus! {

/// Duration to ignore focus events after programmatic focus (ms).
pub const FOCUS_COOLDOWN_MS: u128 = 25;

/// Duration to ignore workspace switch requests after a recent switch (ms).
pub const WORKSPACE_SWITCH_COOLDOWN_MS: u128 = 25;

/// Delay between hiding old workspace and showing new workspace (ms).
pub const HIDE_SHOW_DELAY_MS: u64 = 10;

/// Screen change debounce delay (ms).
pub const SCREEN_CHANGE_DELAY_MS: u64 = 100;

/// Maximum time to wait for new window AX readiness (ms).
pub const WINDOW_READY_TIMEOUT_MS: u64 = 25;

/// Polling interval when waiting for window readiness (ms).
pub const WINDOW_READY_POLL_INTERVAL_MS: u64 = 5;

/// Event coalescing window (ms).
pub const EVENT_COALESCE_MS: u64 = 4;

} // verus!
