//! Synthesis of C++ wrapper classes over a C ABI, from a typed description of
//! classes, their members and their value types.
pub mod types;
pub mod context;
pub mod marshal;
pub mod members;
pub mod class;
pub mod emit;
pub mod config;

pub use config::{Builder, Config};
