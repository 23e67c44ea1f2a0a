//! Runtime adapter for nvms microVM integration.

use vstd::prelude::*;

verus! {

/// A runtime adapter for nvms microVM integration: the entry point for
/// connecting Pine to the nvms microVM backend.
pub struct NvmsRuntime;

impl NvmsRuntime {
    /// Create a new nvms runtime adapter.
    pub fn new() -> (r: Self) {
        Self
    }
}

impl Default for NvmsRuntime {
    fn default() -> (r: Self) {
        Self::new()
    }
}

} // verus!
