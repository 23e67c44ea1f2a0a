//! Core domain types that identify processes and system calls.

use vstd::prelude::*;

verus! {

/// A unique identifier for a process: a thin wrapper around a `u32`.
pub struct ProcessId(pub u32);

/// A raw system call number: a thin wrapper around a `u32`.
pub struct SyscallNumber(pub u32);

} // verus!
