//! Pine: binary loading, syscall translation and process ports for a
//! compatibility layer.

mod cells;
pub mod compat;
pub mod loader;
pub mod nvms;
pub mod ports;
pub mod syscall;
pub mod text;
pub mod traits;
pub mod types;
