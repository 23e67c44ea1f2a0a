//! Hexagonal ports for Pine.
//!
//! Each module in this directory is a port (a trait that the domain
//! needs but does not implement), together with at least one in-memory
//! adapter and one mock adapter for tests.

pub mod assets;
pub mod resolve;
pub mod section;
pub mod serialization;
