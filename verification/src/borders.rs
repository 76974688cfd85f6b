//! Window border management via `JankyBorders`.
//!
//! - `janky`: color conversion and the de-duplicating command protocol

pub mod janky;
pub mod mach_ipc;
pub mod manager;

pub use manager::{BorderManager, BorderState};
