//! Flags of the display reconfiguration callback.
#![allow(non_upper_case_globals)]

use vstd::prelude::*;

verus! {

/// A display was added.
pub const kCGDisplayAddFlag: u32 = 16;

/// A display was removed.
pub const kCGDisplayRemoveFlag: u32 = 32;

/// The reconfiguration is about to begin.
pub const kCGDisplayBeginConfigurationFlag: u32 = 1;

} // verus!
