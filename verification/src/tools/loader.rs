//! Builds engines, components and sandboxes outside a runtime.

use crate::runtime::component_or_error;
use crate::runtime::egress::Ipv4Addr;
use crate::runtime::engine_config;
use crate::runtime::engine_or_error;
use crate::runtime::lambda::Lambda;
use crate::runtime::lambda::MIN_MEMORY_SIZE;
use crate::runtime::lambda_error::LambdaError;
use crate::runtime::runtime_error::RuntimeError;
use crate::runtime::wasi_flags::WasiFlags;
use std::sync::Arc;
use vstd::prelude::*;
use wasmtime::component::Component;
use wasmtime::Engine;

verus! {

/// Compiles the binary form of a component with `engine`. Bytes that the
/// engine rejects give [`RuntimeError::ComponentBuildError`]; which bytes
/// it accepts is the engine's to say.
pub fn load_module_from_bytes(
    engine: &Engine,
    image: &[u8],
) -> (loaded: Result<Arc<Component>, RuntimeError>)
    ensures
        loaded matches Err(e) ==> e == RuntimeError::ComponentBuildError,
{
    match component_or_error(Component::from_binary(engine, image)) {
        Ok(component) => Ok(Arc::new(component)),
        Err(e) => Err(e),
    }
}

/// Builds an engine with asynchronous execution and the component model
/// switched as asked. Settings that the engine rejects give
/// [`RuntimeError::EngineInitError`]; which it accepts is the engine's to
/// say.
pub fn build_engine(
    async_support: bool,
    wasm_component_module: bool,
) -> (built: Result<Engine, RuntimeError>)
    ensures
        built matches Err(e) ==> e == RuntimeError::EngineInitError,
{
    let config = engine_config(async_support, wasm_component_module).config();
    engine_or_error(Engine::new(&config))
}

/// What a sandbox that stands alone is, given what came of making it: the
/// sandbox where it was made, and the reason as text where it was not.
pub open spec fn lambda_result_for(
    made: Result<Lambda, LambdaError>,
    result: Result<Lambda, RuntimeError>,
) -> bool {
    match made {
        Ok(lambda) => result matches Ok(same) && same == lambda,
        Err(e) => result matches Err(RuntimeError::FunctionInitError(reason)) && reason@
            == e.message(),
    }
}

/// Hands a sandbox on, or wraps the reason why it was not made.
pub fn lambda_or_error(made: Result<Lambda, LambdaError>) -> (result: Result<Lambda, RuntimeError>)
    ensures
        lambda_result_for(made, result),
{
    match made {
        Ok(lambda) => Ok(lambda),
        Err(e) => Err(RuntimeError::FunctionInitError(e.to_string())),
    }
}

/// Builds a sandbox from the bytes of a component: an engine is built, the
/// bytes are compiled with it, and the sandbox is made from the result.
///
/// The engine and the compilation come first, so a memory size under
/// [`MIN_MEMORY_SIZE`] is refused only where both succeed; it is never
/// accepted.
pub fn build_lambda_from_bytes(
    image: &[u8],
    mem_size: usize,
    tap_ip: Ipv4Addr,
    wasi_flags: WasiFlags,
) -> (built: Result<Lambda, RuntimeError>)
    ensures
        built matches Ok(lambda) ==> {
            &&& mem_size >= MIN_MEMORY_SIZE
            &&& lambda.wf()
            &&& lambda.memory_cap() == mem_size
            &&& lambda.permitted_ip() == tap_ip
            &&& lambda.flags() == wasi_flags
            &&& !lambda.stopped()
        },
        built matches Err(e) ==> {
            ||| e == RuntimeError::EngineInitError
            ||| e == RuntimeError::ComponentBuildError
            ||| mem_size < MIN_MEMORY_SIZE && (e matches RuntimeError::FunctionInitError(reason)
                && reason@ == LambdaError::NotEnoughtMemory.message())
        },
{
    let engine = match build_engine(true, true) {
        Ok(engine) => engine,
        Err(e) => {
            return Err(e);
        },
    };
    let component = match load_module_from_bytes(&engine, image) {
        Ok(component) => component,
        Err(e) => {
            return Err(e);
        },
    };
    lambda_or_error(Lambda::new(component, mem_size, tap_ip, wasi_flags))
}

} // verus!
