//! Helpers around the runtime.

pub mod args;
pub mod loader;
