//! Registration state of the application launch monitor.

use vstd::prelude::*;

verus! {

/// Whether the application launch monitor is registered.
pub struct AppMonitorState {
    initialized: bool,
}

impl AppMonitorState {
    /// Whether the monitor is registered.
    pub closed spec fn initialized_spec(&self) -> bool {
        self.initialized
    }

    /// A monitor that is not registered.
    pub fn new() -> (r: Self)
        ensures
            !r.initialized_spec(),
    {
        AppMonitorState { initialized: false }
    }

    /// Marks the monitor registered; returns whether it already was.
    pub fn mark_initialized(&mut self) -> (r: bool)
        ensures
            r == old(self).initialized_spec(),
            final(self).initialized_spec(),
    {
        let was = self.initialized;
        self.initialized = true;
        was
    }

    /// Marks the monitor unregistered after a failed registration.
    pub fn clear_initialized(&mut self)
        ensures
            !final(self).initialized_spec(),
    {
        self.initialized = false;
    }
}

/// Returns whether the app monitor is registered.
pub fn is_initialized(state: &AppMonitorState) -> (r: bool)
    ensures
        r == state.initialized_spec(),
{
    state.initialized
}

} // verus!
