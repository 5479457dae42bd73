//! The items of the WebAssembly engine that the runtime calls.
//!
//! Nothing here is proved. The engine's values are opaque, and of its
//! functions the runtime relies on nothing but that they can be called:
//! which settings make an engine and which bytes make a component is the
//! engine's to say, so no declaration below promises a result.

use vstd::prelude::*;

verus! {

/// `wasmtime::Engine`: a compilation and execution context with its epoch
/// counter. Opaque.
#[verifier::external_type_specification]
#[verifier::external_body]
pub struct ExEngine(wasmtime::Engine);

/// `wasmtime::component::Component`: a compiled component. Opaque.
#[verifier::external_type_specification]
#[verifier::external_body]
pub struct ExComponent(wasmtime::component::Component);

/// `wasmtime::Config`: the settings an engine is built from. Opaque.
#[verifier::external_type_specification]
#[verifier::external_body]
pub struct ExConfig(wasmtime::Config);

/// `wasmtime::OptLevel`: how hard the code generator optimizes.
#[verifier::external_type_specification]
pub struct ExOptLevel(wasmtime::OptLevel);

/// `anyhow::Error`: the error of the engine's fallible calls. Opaque.
#[verifier::external_type_specification]
#[verifier::external_body]
pub struct ExError(anyhow::Error);

/// `Config::new` returns the default settings. Nothing is claimed of them.
pub assume_specification[ wasmtime::Config::new ]() -> (config: wasmtime::Config)
;

/// `Config::async_support` switches asynchronous execution on or off and
/// hands the settings back. Nothing is claimed of them.
pub assume_specification[ wasmtime::Config::async_support ](
    config: &mut wasmtime::Config,
    enable: bool,
) -> (same: &mut wasmtime::Config)
;

/// `Config::wasm_component_model` switches the component model on or off
/// and hands the settings back. Nothing is claimed of them.
pub assume_specification[ wasmtime::Config::wasm_component_model ](
    config: &mut wasmtime::Config,
    enable: bool,
) -> (same: &mut wasmtime::Config)
;

/// `Config::epoch_interruption` switches epoch-based interruption on or off
/// and hands the settings back. Nothing is claimed of them.
pub assume_specification[ wasmtime::Config::epoch_interruption ](
    config: &mut wasmtime::Config,
    enable: bool,
) -> (same: &mut wasmtime::Config)
;

/// `Config::cranelift_opt_level` sets the optimization level and hands the
/// settings back. Nothing is claimed of them.
pub assume_specification[ wasmtime::Config::cranelift_opt_level ](
    config: &mut wasmtime::Config,
    level: wasmtime::OptLevel,
) -> (same: &mut wasmtime::Config)
;

/// `Engine::new` builds an engine from settings, or fails where they are
/// invalid or incompatible. Nothing is claimed of which.
pub assume_specification[ wasmtime::Engine::new ](config: &wasmtime::Config) -> (built: Result<
    wasmtime::Engine,
    anyhow::Error,
>)
;

/// `Engine::increment_epoch` advances the engine's epoch counter by one
/// atomic increment. It returns nothing, and nothing is claimed of it.
pub assume_specification[ wasmtime::Engine::increment_epoch ](engine: &wasmtime::Engine)
;

/// `Component::from_binary` compiles the binary form of a component with
/// the given engine, or fails where the bytes are rejected. Nothing is
/// claimed of which.
pub assume_specification[ wasmtime::component::Component::from_binary ](
    engine: &wasmtime::Engine,
    binary: &[u8],
) -> (built: Result<wasmtime::component::Component, anyhow::Error>)
;

/// `Component::engine` returns the engine that compiled the component.
/// Nothing is claimed of it.
pub assume_specification[ wasmtime::component::Component::engine ](
    component: &wasmtime::component::Component,
) -> (engine: &wasmtime::Engine)
;

} // verus!
