//! Tuning constants of the tiling system.
//!
//! - `timing`: debouncing, cooldowns and delays
//! - `layout`: layout calculation limits
//! - `animation`: animation system parameters
//! - `cache`: cache lifetimes

pub mod animation;
pub mod cache;
pub mod layout;
pub mod timing;
