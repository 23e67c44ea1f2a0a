//! Compatibility shim bridging host and guest environments.

use vstd::prelude::*;

verus! {

/// A compatibility layer for bridging host and guest environments.
///
/// This layer translates or emulates behaviour that differs between the
/// native host and the guest environment.
pub struct CompatibilityLayer;

impl CompatibilityLayer {
    /// Create a new compatibility layer.
    pub fn new() -> (l: Self) {
        Self
    }
}

impl Default for CompatibilityLayer {
    fn default() -> (l: Self) {
        Self::new()
    }
}

} // verus!
