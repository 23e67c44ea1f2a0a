//! Core domain traits (ports).
//!
//! These traits define the boundaries between Pine's subsystems.

use vstd::prelude::*;

verus! {

/// Loads binary data from a path.
///
/// Implementations may read from disk, memory, or a network source.
pub trait Loader {
    /// Load binary data from the given path.
    fn load(&self, path: &str) -> Result<Vec<u8>, String>;
}

/// Handles system calls.
///
/// Implementations translate raw syscall numbers into platform-specific
/// behaviour and return the result.
pub trait SyscallHandler {
    /// Handle a syscall with the given number and arguments.
    fn handle(&self, number: u32, args: &[u64]) -> Result<u64, String>;
}

} // verus!
