//! Results of the macOS Accessibility API.

pub mod accessibility;
