//! Cache lifetimes.

use vstd::prelude::*;

verus! {

/// Lifetime of the cached screen list (ms).
pub const SCREEN_TTL_MS: u64 = 1000;

} // verus!
