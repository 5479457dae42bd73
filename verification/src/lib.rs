//! A function-as-a-service runtime for WebAssembly components.
//!
//! The [`runtime`] module holds the control plane ([`runtime::Runtime`]) and
//! the per-function sandbox ([`runtime::lambda::Lambda`]); [`tools`] holds
//! helpers that build the pieces a sandbox is made from, and the settings
//! that a command line gives.

pub mod runtime;
pub mod tools;
