//! Errors of the control plane.

use super::lambda_error::quoted;
use vstd::prelude::*;
use vstd::string::StringExecFns;

verus! {

/// What can go wrong in an operation of the control plane.
#[derive(Debug, PartialEq)]
pub enum RuntimeError {
    EngineInitError,
    ComponentBuildError,
    ModuleAlreadyReg,
    LambdaFailedExec,
    ComponentNotFound,
    MaxFunctionDeplaymentReached,
    FunctionInitError(String),
    FunctionAlreadyInitialized,
    FunctionExecError(String),
    FunctionStopError(String),
    ModuleNotRegistered,
    FunctionNotRegistered,
}

impl RuntimeError {
    /// The text shown for this error.
    pub open spec fn message(self) -> Seq<char> {
        match self {
            RuntimeError::EngineInitError => "RuntimeError: Could not initialize the engine"@,
            RuntimeError::ComponentBuildError =>
                "RuntimeError: Could not initialize the Module due to byte code errors"@,
            RuntimeError::ModuleAlreadyReg => "RuntimeError: Module already registered"@,
            RuntimeError::LambdaFailedExec => "RuntimeError: Lambda function failed to execute"@,
            RuntimeError::ComponentNotFound => "RuntimeError: This module is not registered"@,
            RuntimeError::MaxFunctionDeplaymentReached =>
                "RuntimeError: The max allocation of functions was reached"@,
            RuntimeError::FunctionInitError(reason) =>
                "RuntimeError: Was not able to init the function due to `"@ + reason@ + "`"@,
            RuntimeError::FunctionAlreadyInitialized =>
                "RuntimeError: This functions is already initialized"@,
            RuntimeError::FunctionExecError(reason) =>
                "RuntimeError: Function was not able to execute due to `"@ + reason@ + "`"@,
            RuntimeError::FunctionStopError(reason) =>
                "RuntimeError: Function was not able to stop due to `"@ + reason@ + "`"@,
            RuntimeError::ModuleNotRegistered => "RuntimeError: This module is not registered"@,
            RuntimeError::FunctionNotRegistered =>
                "RuntimeError: This function is not registered"@,
        }
    }

    /// Renders the error as text.
    pub fn to_string(&self) -> (text: String)
        ensures
            text@ == self.message(),
    {
        match self {
            RuntimeError::EngineInitError => String::from_str(
                "RuntimeError: Could not initialize the engine",
            ),
            RuntimeError::ComponentBuildError => String::from_str(
                "RuntimeError: Could not initialize the Module due to byte code errors",
            ),
            RuntimeError::ModuleAlreadyReg => String::from_str(
                "RuntimeError: Module already registered",
            ),
            RuntimeError::LambdaFailedExec => String::from_str(
                "RuntimeError: Lambda function failed to execute",
            ),
            RuntimeError::ComponentNotFound => String::from_str(
                "RuntimeError: This module is not registered",
            ),
            RuntimeError::MaxFunctionDeplaymentReached => String::from_str(
                "RuntimeError: The max allocation of functions was reached",
            ),
            RuntimeError::FunctionInitError(reason) => quoted(
                "RuntimeError: Was not able to init the function due to `",
                reason,
            ),
            RuntimeError::FunctionAlreadyInitialized => String::from_str(
                "RuntimeError: This functions is already initialized",
            ),
            RuntimeError::FunctionExecError(reason) => quoted(
                "RuntimeError: Function was not able to execute due to `",
                reason,
            ),
            RuntimeError::FunctionStopError(reason) => quoted(
                "RuntimeError: Function was not able to stop due to `",
                reason,
            ),
            RuntimeError::ModuleNotRegistered => String::from_str(
                "RuntimeError: This module is not registered",
            ),
            RuntimeError::FunctionNotRegistered => String::from_str(
                "RuntimeError: This function is not registered",
            ),
        }
    }
}

} // verus!
