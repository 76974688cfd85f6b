//! Notification names for accessibility events.

use vstd::prelude::*;

verus! {

/// Window was created.
pub const WINDOW_CREATED: &'static str = "AXWindowCreated";

/// UI element was destroyed (window closed).
pub const UI_ELEMENT_DESTROYED: &'static str = "AXUIElementDestroyed";

/// Focused UI element changed.
pub const FOCUSED_UI_ELEMENT_CHANGED: &'static str = "AXFocusedUIElementChanged";

/// Focused window changed.
pub const FOCUSED_WINDOW_CHANGED: &'static str = "AXFocusedWindowChanged";

/// Window was moved.
pub const WINDOW_MOVED: &'static str = "AXWindowMoved";

/// Window was resized.
pub const WINDOW_RESIZED: &'static str = "AXWindowResized";

/// Window was minimized.
pub const WINDOW_MINIMIZED: &'static str = "AXWindowMiniaturized";

/// Window was unminimized.
pub const WINDOW_UNMINIMIZED: &'static str = "AXWindowDeminiaturized";

/// Window title changed.
pub const TITLE_CHANGED: &'static str = "AXTitleChanged";

/// Application was activated.
pub const APPLICATION_ACTIVATED: &'static str = "AXApplicationActivated";

/// Application was deactivated.
pub const APPLICATION_DEACTIVATED: &'static str = "AXApplicationDeactivated";

/// Application was hidden.
pub const APPLICATION_HIDDEN: &'static str = "AXApplicationHidden";

/// Application was shown.
pub const APPLICATION_SHOWN: &'static str = "AXApplicationShown";

} // verus!
