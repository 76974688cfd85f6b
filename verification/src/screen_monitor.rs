//! Display reconfiguration handling.
//!
//! macOS reports display changes through a reconfiguration callback that
//! fires twice per change (before and after). Only the completion of an
//! added or removed display is handled, and only one change is processed
//! at a time.

pub mod cg_flags;

use vstd::prelude::*;

use cg_flags::{kCGDisplayAddFlag, kCGDisplayBeginConfigurationFlag, kCGDisplayRemoveFlag};

verus! {

/// A display that was added or removed.
#[derive(Debug, Clone, Copy, PartialEq, Eq, Structural)]
pub enum ScreenChange {
    /// A display was connected.
    Connected,
    /// A display was disconnected.
    Disconnected,
}

/// The change that a reconfiguration callback reports, if it is to be handled.
pub open spec fn reconfiguration_spec(flags: u32, processing: bool) -> Option<ScreenChange> {
    let begin = flags & 1u32 != 0;
    let add = flags & 16u32 != 0;
    let remove = flags & 32u32 != 0;
    if begin || (!add && !remove) || processing {
        None
    } else if add {
        Some(ScreenChange::Connected)
    } else {
        Some(ScreenChange::Disconnected)
    }
}

/// Decides what a display reconfiguration callback reports.
///
/// The "begin configuration" phase, changes that neither add nor remove a
/// display, and changes that arrive while one is processed are ignored.
pub fn classify_reconfiguration(flags: u32, processing: bool) -> (r: Option<ScreenChange>)
    ensures
        r == reconfiguration_spec(flags, processing),
{
    if flags & kCGDisplayBeginConfigurationFlag != 0 {
        return None;
    }
    let is_add = flags & kCGDisplayAddFlag != 0;
    let is_remove = flags & kCGDisplayRemoveFlag != 0;
    if !is_add && !is_remove {
        return None;
    }
    if processing {
        return None;
    }
    if is_add {
        Some(ScreenChange::Connected)
    } else {
        Some(ScreenChange::Disconnected)
    }
}

/// Whether the screen monitor is registered and whether a change is being processed.
pub struct ScreenMonitorState {
    initialized: bool,
    processing: bool,
}

impl ScreenMonitorState {
    /// Whether the monitor is registered.
    pub closed spec fn initialized_spec(&self) -> bool {
        self.initialized
    }

    /// Whether a screen change is being processed.
    pub closed spec fn processing_spec(&self) -> bool {
        self.processing
    }

    /// A monitor that is not registered and processes nothing.
    pub fn new() -> (r: Self)
        ensures
            !r.initialized_spec(),
            !r.processing_spec(),
    {
        ScreenMonitorState { initialized: false, processing: false }
    }

    /// Marks the monitor registered; returns whether it already was.
    pub fn mark_initialized(&mut self) -> (r: bool)
        ensures
            r == old(self).initialized_spec(),
            final(self).initialized_spec(),
            final(self).processing_spec() == old(self).processing_spec(),
    {
        let was = self.initialized;
        self.initialized = true;
        was
    }

    /// Marks the monitor unregistered after a failed registration.
    pub fn clear_initialized(&mut self)
        ensures
            !final(self).initialized_spec(),
            final(self).processing_spec() == old(self).processing_spec(),
    {
        self.initialized = false;
    }

    /// The change to handle for a callback with `flags`.
    ///
    /// A handled change marks the monitor as processing until
    /// [`set_processing`] clears it.
    pub fn on_reconfiguration(&mut self, flags: u32) -> (r: Option<ScreenChange>)
        ensures
            r == reconfiguration_spec(flags, old(self).processing_spec()),
            final(self).processing_spec() == (old(self).processing_spec() || r is Some),
            final(self).initialized_spec() == old(self).initialized_spec(),
    {
        let r = classify_reconfiguration(flags, self.processing);
        if r.is_some() {
            self.processing = true;
        }
        r
    }
}

/// Returns whether the screen monitor is registered.
pub fn is_initialized(state: &ScreenMonitorState) -> (r: bool)
    ensures
        r == state.initialized_spec(),
{
    state.initialized
}

/// Sets whether a screen change is being processed.
pub fn set_processing(state: &mut ScreenMonitorState, processing: bool)
    ensures
        final(state).processing_spec() == processing,
        final(state).initialized_spec() == old(state).initialized_spec(),
{
    state.processing = processing;
}

} // verus!

verus! {

/// While a screen change is being processed, every further callback is ignored.
pub proof fn law_one_change_at_a_time(flags: u32)
    ensures
        reconfiguration_spec(flags, true) is None,
{
}

/// The "begin configuration" phase is never handled.
pub proof fn law_begin_phase_ignored(flags: u32, processing: bool)
    requires
        flags & 1u32 != 0,
    ensures
        reconfiguration_spec(flags, processing) is None,
{
}

} // verus!
