//! One call of a guest's entry point, as the steps the host takes and what
//! follows from how each ends.

use super::lambda::classify_call_failure;
use super::lambda::call_failure;
use super::lambda::StopSignal;
use super::lambda::StorePlan;
use super::lambda_error::LambdaError;
use std::sync::Arc;
use vstd::prelude::*;
use wasmtime::component::Component;

verus! {

/// The work that the host does for an invocation, one step at a time.
#[derive(Clone, Copy, Debug, PartialEq, Eq, Structural)]
pub enum RunStep {
    /// Build a linker for the component's engine and add the asynchronous
    /// WASI imports to it.
    LinkWasi,
    /// Build the store the plan describes, with the epoch-deadline callback
    /// installed, and instantiate the component in it.
    Instantiate,
    /// Look the interface `component:run/run` up among the exports.
    FindInterface,
    /// Look the function `run` up in that interface.
    FindFunction,
    /// Check the function against the signature `(string) -> (string)`.
    TypeFunction,
    /// Call the function on the arguments.
    Call,
}

/// One call of a guest's entry point that has not ended yet.
pub struct Invocation {
    /// The step that the host has to take now.
    pub step: RunStep,
    /// The argument of the call.
    pub args: String,
    /// The store to build for the call.
    pub store: StorePlan,
    /// The component to instantiate.
    pub component: Arc<Component>,
    /// The stop signal of the sandbox that the call was started from.
    pub stop: StopSignal,
}

/// Where an invocation stands after a step.
pub enum RunProgress {
    /// The host has another step to take.
    Pending(Invocation),
    /// The call has ended, with the guest's output or with an error.
    Finished(Result<String, LambdaError>),
}

/// The step that follows `step` where it has succeeded; a call is the last.
pub open spec fn step_after(step: RunStep) -> RunStep {
    match step {
        RunStep::LinkWasi => RunStep::Instantiate,
        RunStep::Instantiate => RunStep::FindInterface,
        RunStep::FindInterface => RunStep::FindFunction,
        RunStep::FindFunction => RunStep::TypeFunction,
        RunStep::TypeFunction => RunStep::Call,
        RunStep::Call => RunStep::Call,
    }
}

/// The error that an invocation ends with where `step` has failed with
/// `reason`. A failed call is a forced stop where a stop had been
/// requested, and a fault of the guest where none had.
pub open spec fn step_failure(
    step: RunStep,
    reason: String,
    stop_requested: bool,
) -> LambdaError {
    match step {
        RunStep::LinkWasi => LambdaError::WasiAsyncLinkerError(reason),
        RunStep::Instantiate => LambdaError::InstanceBuilderError(reason),
        RunStep::FindInterface => LambdaError::FunctionInterfaceError,
        RunStep::FindFunction => LambdaError::FunctionInterfaceRetrievError,
        RunStep::TypeFunction => LambdaError::FunctionRetrievError(reason),
        RunStep::Call => call_failure(stop_requested),
    }
}

/// Where an invocation at `step` stands once the host reports `reply`,
/// given whether a stop had been requested by then.
pub open spec fn progress_after(
    invocation: Invocation,
    reply: Result<String, String>,
    stop_requested: bool,
) -> RunProgress {
    match reply {
        Ok(output) => if invocation.step == RunStep::Call {
            RunProgress::Finished(Ok(output))
        } else {
            RunProgress::Pending(Invocation { step: step_after(invocation.step), ..invocation })
        },
        Err(reason) => RunProgress::Finished(
            Err(step_failure(invocation.step, reason, stop_requested)),
        ),
    }
}

/// Where an invocation stands once the host has reported `replies` one
/// after the other, as far as the invocation takes them: replies that come
/// after the one that ends it are left.
pub open spec fn progress_through(
    invocation: Invocation,
    replies: Seq<Result<String, String>>,
    stop_requested: bool,
) -> RunProgress
    decreases replies.len(),
{
    if replies.len() == 0 {
        RunProgress::Pending(invocation)
    } else {
        match progress_after(invocation, replies[0], stop_requested) {
            RunProgress::Pending(next) => progress_through(next, replies.skip(1), stop_requested),
            RunProgress::Finished(outcome) => RunProgress::Finished(outcome),
        }
    }
}

/// The error for a step that has failed with `reason`.
pub fn step_error(step: RunStep, reason: String, stop_requested: bool) -> (error: LambdaError)
    ensures
        error == step_failure(step, reason, stop_requested),
{
    match step {
        RunStep::LinkWasi => LambdaError::WasiAsyncLinkerError(reason),
        RunStep::Instantiate => LambdaError::InstanceBuilderError(reason),
        RunStep::FindInterface => LambdaError::FunctionInterfaceError,
        RunStep::FindFunction => LambdaError::FunctionInterfaceRetrievError,
        RunStep::TypeFunction => LambdaError::FunctionRetrievError(reason),
        RunStep::Call => classify_call_failure(stop_requested),
    }
}

impl Invocation {
    /// The name of the export that the current step looks up: the interface
    /// at [`RunStep::FindInterface`], the function at every other step.
    pub fn export_name(&self) -> (name: &'static str)
        ensures
            self.step == RunStep::FindInterface ==> name@ == "component:run/run"@,
            self.step != RunStep::FindInterface ==> name@ == "run"@,
    {
        match self.step {
            RunStep::FindInterface => "component:run/run",
            _ => "run",
        }
    }

    /// Takes the invocation on by one step, given how the host's work on
    /// the current step ended: `Ok` where it succeeded, carrying the
    /// guest's output where the step was the call, and `Err` with the
    /// host's message where it failed.
    ///
    /// A step that succeeds leads to the next one, and a call that succeeds
    /// ends the invocation with the guest's output. A step that fails ends
    /// the invocation with the error of that step. For a failed call the
    /// stop signal is read: which of the two errors comes out depends on
    /// whether it had been raised, which no contract can say.
    pub fn resume(self, reply: Result<String, String>) -> (progress: RunProgress)
        ensures
            exists|stop_requested: bool| progress == progress_after(self, reply, stop_requested),
            reply is Ok || self.step != RunStep::Call ==> progress == progress_after(
                self,
                reply,
                false,
            ),
    {
        match reply {
            Ok(output) => {
                let next = match self.step {
                    RunStep::LinkWasi => RunStep::Instantiate,
                    RunStep::Instantiate => RunStep::FindInterface,
                    RunStep::FindInterface => RunStep::FindFunction,
                    RunStep::FindFunction => RunStep::TypeFunction,
                    RunStep::TypeFunction => RunStep::Call,
                    RunStep::Call => {
                        return RunProgress::Finished(Ok(output));
                    },
                };
                let progress = RunProgress::Pending(
                    Invocation {
                        step: next,
                        args: self.args,
                        store: self.store,
                        component: self.component,
                        stop: self.stop,
                    },
                );
                progress
            },
            Err(reason) => {
                let stop_requested = match self.step {
                    RunStep::Call => self.stop.is_raised(),
                    _ => false,
                };
                let progress = RunProgress::Finished(
                    Err(step_error(self.step, reason, stop_requested)),
                );
                assert(progress == progress_after(self, reply, stop_requested));
                progress
            },
        }
    }
}

} // verus!
