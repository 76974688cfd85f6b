//! Layout calculation limits.

use vstd::prelude::*;

verus! {

/// Maximum windows for grid layout optimization.
pub const MAX_GRID_WINDOWS: usize = 12;

} // verus!
