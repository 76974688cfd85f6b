//! Animation configuration and cancellation.
//!
//! A running animation looks at the count of waiting commands every frame:
//! commands that are waiting for the manager lock register with
//! [`cancel_animation`] and sign off with [`begin_animation`] once they hold
//! the lock. While any command waits, the animation stops early and lets it
//! run.

use vstd::prelude::*;

use crate::config::EasingType;
use crate::constants::animation::{MAX_DURATION_MS, MIN_DURATION_MS};

verus! {

/// The count of commands waiting to run an animation.
pub struct WaitingCommands {
    waiting_commands: u64,
}

impl WaitingCommands {
    /// The number of waiting commands.
    pub closed spec fn waiting(&self) -> u64 {
        self.waiting_commands
    }

    /// Nobody waiting.
    pub fn new() -> (r: Self)
        ensures
            r.waiting() == 0,
    {
        WaitingCommands { waiting_commands: 0 }
    }

    /// The number of waiting commands.
    pub fn waiting_commands(&self) -> (r: u64)
        ensures
            r == self.waiting(),
    {
        self.waiting_commands
    }
}

/// Signals that a command is waiting to run an animation.
///
/// The counter wraps around on overflow, like an atomic `fetch_add`.
pub fn cancel_animation(waiting: &mut WaitingCommands)
    ensures
        final(waiting).waiting() == if old(waiting).waiting() == u64::MAX {
            0
        } else {
            (old(waiting).waiting() + 1) as u64
        },
{
    waiting.waiting_commands = waiting.waiting_commands.wrapping_add(1);
}

/// Signals that a waiting command now holds the lock.
///
/// The counter never goes below zero.
pub fn begin_animation(waiting: &mut WaitingCommands)
    ensures
        final(waiting).waiting() == if old(waiting).waiting() == 0 {
            0
        } else {
            (old(waiting).waiting() - 1) as u64
        },
{
    waiting.waiting_commands = waiting.waiting_commands.saturating_sub(1);
}

/// Whether a running animation should stop to let waiting commands run.
pub fn should_cancel(waiting: &WaitingCommands) -> (r: bool)
    ensures
        r == (waiting.waiting() > 0),
{
    waiting.waiting_commands > 0
}

/// The configured duration clamped to the supported range.
pub open spec fn clamp_duration(ms: u32) -> u64 {
    if ms < MIN_DURATION_MS {
        MIN_DURATION_MS as u64
    } else if ms > MAX_DURATION_MS {
        MAX_DURATION_MS as u64
    } else {
        ms as u64
    }
}

/// Configuration for the animation system.
#[derive(Debug, Clone, Copy)]
pub struct AnimationConfig {
    /// Whether animations are enabled.
    pub enabled: bool,
    /// Base animation duration for large movements, in milliseconds.
    pub duration: u64,
    /// Easing function type.
    pub easing: EasingType,
}

impl Default for AnimationConfig {
    fn default() -> (r: Self)
        ensures
            !r.enabled,
            r.duration == 200,
            r.easing == EasingType::EaseOut,
    {
        AnimationConfig { enabled: false, duration: 200, easing: EasingType::EaseOut }
    }
}

impl AnimationConfig {
    /// Creates the animation configuration from the configured values.
    ///
    /// The duration is clamped to 100..=1000 milliseconds.
    pub fn from_config(enabled: bool, duration_ms: u32, easing: EasingType) -> (r: Self)
        ensures
            r.enabled == enabled,
            r.duration == clamp_duration(duration_ms),
            r.easing == easing,
    {
        let clamped = if duration_ms < MIN_DURATION_MS {
            MIN_DURATION_MS
        } else if duration_ms > MAX_DURATION_MS {
            MAX_DURATION_MS
        } else {
            duration_ms
        };
        AnimationConfig { enabled, duration: clamped as u64, easing }
    }
}

/// The animation system for smooth window transitions.
#[derive(Debug)]
pub struct AnimationSystem {
    config: AnimationConfig,
}

impl Default for AnimationSystem {
    fn default() -> (r: Self)
        ensures
            r.config() == (AnimationConfig { enabled: false, duration: 200, easing: EasingType::EaseOut }),
    {
        Self::new()
    }
}

impl AnimationSystem {
    /// The configuration in use.
    pub closed spec fn config(&self) -> AnimationConfig {
        self.config
    }

    /// Creates a new animation system with default configuration.
    pub fn new() -> (r: Self)
        ensures
            r.config() == (AnimationConfig { enabled: false, duration: 200, easing: EasingType::EaseOut }),
    {
        AnimationSystem { config: AnimationConfig::default() }
    }

    /// Creates an animation system from the configured values.
    pub fn from_config(enabled: bool, duration_ms: u32, easing: EasingType) -> (r: Self)
        ensures
            r.config().enabled == enabled,
            r.config().duration == clamp_duration(duration_ms),
            r.config().easing == easing,
    {
        AnimationSystem { config: AnimationConfig::from_config(enabled, duration_ms, easing) }
    }

    /// Returns whether animations are enabled.
    pub fn is_enabled(&self) -> (r: bool)
        ensures
            r == self.config().enabled,
    {
        self.config.enabled
    }

    /// Returns the animation duration in milliseconds.
    pub fn duration(&self) -> (r: u64)
        ensures
            r == self.config().duration,
    {
        self.config.duration
    }

    /// Returns the easing type.
    pub fn easing(&self) -> (r: EasingType)
        ensures
            r == self.config().easing,
    {
        self.config.easing
    }
}

} // verus!

verus! {

/// The waiting count after a command registers.
pub open spec fn after_cancel(waiting: u64) -> u64 {
    if waiting == u64::MAX {
        0
    } else {
        (waiting + 1) as u64
    }
}

/// The waiting count after a command signs off.
pub open spec fn after_begin(waiting: u64) -> u64 {
    if waiting == 0 {
        0
    } else {
        (waiting - 1) as u64
    }
}

/// A registered command makes running animations stop, and signing off restores the count.
pub proof fn law_cancel_then_begin(waiting: u64)
    requires
        waiting < u64::MAX,
    ensures
        after_cancel(waiting) > 0,
        after_begin(after_cancel(waiting)) == waiting,
{
}

/// Signing off without registering never drives the count below zero.
pub proof fn law_begin_without_cancel()
    ensures
        after_begin(0) == 0,
{
}

/// The configured duration always lies within 100..=1000 milliseconds.
pub proof fn law_duration_in_range(ms: u32)
    ensures
        100 <= clamp_duration(ms) <= 1000,
        100 <= ms <= 1000 ==> clamp_duration(ms) == ms,
{
}

} // verus!
