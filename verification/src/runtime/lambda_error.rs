//! Errors of a single sandbox.

use vstd::prelude::*;
use vstd::string::StringExecFns;

verus! {

/// What can go wrong while a sandbox is built, run or stopped.
#[derive(Debug, PartialEq)]
pub enum LambdaError {
    MemoryFunctionError,
    FunctionInterfaceError,
    FunctionInterfaceRetrievError,
    FunctionRetrievError(String),
    FunctionExecError,
    ModuleNotFound,
    InstanceBuilderError(String),
    ForceStop,
    EngineBuildError,
    ArgsOutOfMemory,
    FunctionNotRunning,
    WasiAsyncLinkerError(String),
    NotEnoughtMemory,
}

impl LambdaError {
    /// The text shown for this error.
    pub open spec fn message(self) -> Seq<char> {
        match self {
            LambdaError::MemoryFunctionError => "Wasm memory function error"@,
            LambdaError::FunctionInterfaceError => "Wasm WIT interface not found"@,
            LambdaError::FunctionInterfaceRetrievError => "Wasm function interface not found"@,
            LambdaError::FunctionRetrievError(reason) => "Wasm function not found due to `"@
                + reason@ + "`"@,
            LambdaError::FunctionExecError => "Wasm function exec error"@,
            LambdaError::ModuleNotFound => "Wasm module not found"@,
            LambdaError::InstanceBuilderError(reason) => "Wasm instance build error: `"@ + reason@
                + "`"@,
            LambdaError::ForceStop => "Wasm function was forced to stop"@,
            LambdaError::EngineBuildError => "Wasm could not build the Engine"@,
            LambdaError::ArgsOutOfMemory => "Arguments size > wasm module memory"@,
            LambdaError::FunctionNotRunning => "The module is not running"@,
            LambdaError::WasiAsyncLinkerError(reason) =>
                "Wasi was not able add async capabilities to the linker due to `"@ + reason@
                    + "`"@,
            LambdaError::NotEnoughtMemory => "Allocate at least 2Mb of memory"@,
        }
    }

    /// Renders the error as text.
    pub fn to_string(&self) -> (text: String)
        ensures
            text@ == self.message(),
    {
        match self {
            LambdaError::MemoryFunctionError => String::from_str("Wasm memory function error"),
            LambdaError::FunctionInterfaceError => String::from_str("Wasm WIT interface not found"),
            LambdaError::FunctionInterfaceRetrievError => String::from_str(
                "Wasm function interface not found",
            ),
            LambdaError::FunctionRetrievError(reason) => quoted(
                "Wasm function not found due to `",
                reason,
            ),
            LambdaError::FunctionExecError => String::from_str("Wasm function exec error"),
            LambdaError::ModuleNotFound => String::from_str("Wasm module not found"),
            LambdaError::InstanceBuilderError(reason) => quoted(
                "Wasm instance build error: `",
                reason,
            ),
            LambdaError::ForceStop => String::from_str("Wasm function was forced to stop"),
            LambdaError::EngineBuildError => String::from_str("Wasm could not build the Engine"),
            LambdaError::ArgsOutOfMemory => String::from_str("Arguments size > wasm module memory"),
            LambdaError::FunctionNotRunning => String::from_str("The module is not running"),
            LambdaError::WasiAsyncLinkerError(reason) => quoted(
                "Wasi was not able add async capabilities to the linker due to `",
                reason,
            ),
            LambdaError::NotEnoughtMemory => String::from_str("Allocate at least 2Mb of memory"),
        }
    }
}

/// `lead`, then `reason`, then a closing backquote.
pub fn quoted(lead: &str, reason: &String) -> (text: String)
    ensures
        text@ == lead@ + reason@ + "`"@,
{
    let mut text = String::from_str(lead);
    text.append(reason.as_str());
    text.append("`");
    text
}

} // verus!
