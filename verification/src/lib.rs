//! Verified core of the Stache tiling window manager.
//!
//! The modules here hold the decision logic of the tiling system: the state of
//! screens, workspaces and windows with its lookups, the manager's decisions
//! on that state (switching and moving workspaces, tracking and moving
//! windows, following screens as they come and go), the answers to state
//! queries, error values, event coalescing, drag tracking, border
//! bookkeeping, the `JankyBorders` command protocol, and the small state
//! machines that guard the platform monitors.
//! Everything that touches the operating system, and all geometry, lives in
//! the companion application crate.

pub mod text;
pub mod error;
pub mod keyed;
pub mod search;
pub mod config;
pub mod borders;
pub mod observer;
pub mod constants;
pub mod event_coalescer;
pub mod drag_state;
pub mod animation;
pub mod screen;
pub mod screen_monitor;
pub mod app_monitor;
pub mod state;
pub mod ffi;
pub mod manager;
pub mod query;
