//! What holds of the runtime's operations taken together.
//!
//! Each law speaks of the predicates that the operations promise, so it
//! holds of every run of the operations that it names.

use super::egress::egress_allowed;
use super::egress::Ipv4Addr;
use super::egress::SocketAddr;
use super::egress::SocketAddrUse;
use super::checksum::crc32;
use super::invocation::progress_after;
use super::invocation::progress_through;
use super::invocation::Invocation;
use super::invocation::RunProgress;
use super::invocation::RunStep;
use super::lambda::call_failure;
use super::lambda::directive_for;
use super::lambda::stop_outcome;
use super::lambda::EpochDirective;
use super::lambda::Lambda;
use super::lambda::MIN_MEMORY_SIZE;
use super::lambda_error::LambdaError;
use super::model::exec_function_outcome;
use super::model::exec_result_for;
use super::model::init_function_outcome;
use super::model::register_module_outcome;
use super::model::remove_function_outcome;
use super::model::remove_module_outcome;
use super::model::stop_function_outcome;
use super::model::RuntimeView;
use super::runtime_error::RuntimeError;
use vstd::prelude::*;

verus! {

/// A call in which every step of the host succeeds ends with what the
/// guest returned, and the caller of the control plane gets that string
/// unchanged.
pub proof fn law_call_returns_guest_output(
    invocation: Invocation,
    replies: Seq<Result<String, String>>,
    stop_requested: bool,
    result: Result<String, RuntimeError>,
)
    requires
        invocation.step == RunStep::LinkWasi,
        replies.len() == 6,
        forall|i: int| 0 <= i < 6 ==> (#[trigger] replies[i]) is Ok,
        exec_result_for(Ok(replies[5]->Ok_0), result),
    ensures
        progress_through(invocation, replies, stop_requested) == RunProgress::Finished(
            Ok(replies[5]->Ok_0),
        ),
        result == Ok::<String, RuntimeError>(replies[5]->Ok_0),
{
    let r1 = replies.skip(1);
    let r2 = r1.skip(1);
    let r3 = r2.skip(1);
    let r4 = r3.skip(1);
    let r5 = r4.skip(1);
    let i1 = Invocation { step: RunStep::Instantiate, ..invocation };
    let i2 = Invocation { step: RunStep::FindInterface, ..invocation };
    let i3 = Invocation { step: RunStep::FindFunction, ..invocation };
    let i4 = Invocation { step: RunStep::TypeFunction, ..invocation };
    let i5 = Invocation { step: RunStep::Call, ..invocation };
    assert(progress_through(i5, r5, stop_requested) == RunProgress::Finished(Ok(replies[5]->Ok_0)));
    assert(progress_through(i4, r4, stop_requested) == RunProgress::Finished(Ok(replies[5]->Ok_0)));
    assert(progress_through(i3, r3, stop_requested) == RunProgress::Finished(Ok(replies[5]->Ok_0)));
    assert(progress_through(i2, r2, stop_requested) == RunProgress::Finished(Ok(replies[5]->Ok_0)));
    assert(progress_through(i1, r1, stop_requested) == RunProgress::Finished(Ok(replies[5]->Ok_0)));
}

/// A module that has been registered from `bytes` is found under the id
/// that was returned, with the checksum of the bytes.
pub proof fn law_registered_module_is_found(
    before: RuntimeView,
    bytes: Seq<u8>,
    id: String,
    after: RuntimeView,
)
    requires
        before.wf(),
        register_module_outcome(before, bytes, Ok(id), after),
    ensures
        after.modules.contains_key(id@),
        after.modules[id@].hash == crc32(bytes),
{
}

/// A function that has been initialized can be called: the call starts at
/// its first step with the arguments given, on the component of the module
/// that the function was made from, and with that function's share of the
/// memory budget as the limit of its store.
pub proof fn law_initialized_function_can_be_called(
    before: RuntimeView,
    module: Seq<char>,
    tap_ip: Ipv4Addr,
    func_id: Seq<char>,
    id: String,
    made: RuntimeView,
    args: Seq<char>,
    started: Result<Invocation, RuntimeError>,
    after: RuntimeView,
)
    requires
        init_function_outcome(before, module, tap_ip, func_id, Ok(id), made),
        exec_function_outcome(made, id@, args, started, after),
    ensures
        started matches Ok(invocation) && invocation.step == RunStep::LinkWasi && invocation.args@
            == args && invocation.component == before.modules[module].component
            && invocation.store@.memory_size == before.per_function_memory()
            && invocation.store@.memory_size >= MIN_MEMORY_SIZE,
{
}

/// Once a stop has been requested, a guest is told to stop at its next
/// epoch tick, and a call that fails has been forced to stop, whatever the
/// host reports as the reason.
pub proof fn law_stop_ends_pending_call(invocation: Invocation, reason: String)
    requires
        invocation.step == RunStep::Call,
    ensures
        directive_for(true) == EpochDirective::ForceStop,
        progress_after(invocation, Err(reason), true) == RunProgress::Finished(
            Err(LambdaError::ForceStop),
        ),
{
}

/// A call that was started before a stop was requested of its function
/// watches the signal of the sandbox of which the stop was requested.
pub proof fn law_stop_reaches_calls_in_flight(
    before: RuntimeView,
    func_id: Seq<char>,
    args: Seq<char>,
    invocation: Invocation,
    started: RuntimeView,
    after: RuntimeView,
)
    requires
        before.wf(),
        exec_function_outcome(before, func_id, args, Ok(invocation), started),
        stop_function_outcome(started, func_id, Ok(()), after),
    ensures
        after.functions.contains_key(func_id),
        after.functions[func_id].lambda.stopped(),
        after.functions[func_id].lambda.signal() == invocation.stop,
{
}

/// A stop that is requested of a sandbox a second time is refused with
/// [`LambdaError::FunctionNotRunning`], whatever came of the first request.
pub proof fn law_second_stop_is_refused(
    first: Lambda,
    first_result: Result<(), LambdaError>,
    second: Lambda,
    second_result: Result<(), LambdaError>,
    third: Lambda,
)
    requires
        stop_outcome(first, first_result, second),
        stop_outcome(second, second_result, third),
    ensures
        second_result matches Err(LambdaError::FunctionNotRunning),
        third.stopped(),
{
}

/// A stop that is requested of a function a second time never succeeds:
/// where the first request was granted, the second is refused with the
/// text of [`LambdaError::FunctionNotRunning`].
pub proof fn law_second_stop_of_function_is_refused(
    before: RuntimeView,
    func_id: Seq<char>,
    first_result: Result<(), RuntimeError>,
    between: RuntimeView,
    second_result: Result<(), RuntimeError>,
    after: RuntimeView,
)
    requires
        stop_function_outcome(before, func_id, first_result, between),
        stop_function_outcome(between, func_id, second_result, after),
    ensures
        second_result is Err,
        first_result is Ok ==> (second_result matches Err(RuntimeError::FunctionStopError(reason))
            && reason@ == LambdaError::FunctionNotRunning.message()),
{
}

/// A second call of a function can be started while the first is in
/// flight, and each invocation carries the arguments of its own call.
pub proof fn law_calls_may_overlap(
    before: RuntimeView,
    func_id: Seq<char>,
    first_args: Seq<char>,
    first: Invocation,
    between: RuntimeView,
    second_args: Seq<char>,
    second_started: Result<Invocation, RuntimeError>,
    after: RuntimeView,
)
    requires
        exec_function_outcome(before, func_id, first_args, Ok(first), between),
        exec_function_outcome(between, func_id, second_args, second_started, after),
    ensures
        first.args@ == first_args,
        second_started matches Ok(second) && second.args@ == second_args && second.component
            == first.component && second.store@ == first.store@,
{
}

/// Requesting a stop of one function leaves every other function as it
/// was.
pub proof fn law_stop_leaves_other_functions(
    before: RuntimeView,
    func_id: Seq<char>,
    result: Result<(), RuntimeError>,
    after: RuntimeView,
    other: Seq<char>,
)
    requires
        stop_function_outcome(before, func_id, result, after),
        other != func_id,
    ensures
        after.functions.contains_key(other) == before.functions.contains_key(other),
        before.functions.contains_key(other) ==> after.functions[other] == before.functions[other],
{
    if result is Ok {
        assert(after.functions.remove(func_id).contains_key(other) == before.functions.remove(
            func_id,
        ).contains_key(other));
        if before.functions.contains_key(other) {
            assert(after.functions.remove(func_id)[other] == before.functions.remove(
                func_id,
            )[other]);
        }
    }
}

/// A guest may bind the permitted IPv4 address, at any port, and no other
/// address: no other IPv4 address and no IPv6 address. Every other use of
/// an address is allowed. A call that fails without a stop having been
/// requested, as one does whose bind was denied, is a fault of the guest.
pub proof fn law_bind_only_on_permitted_ip(
    tap_ip: Ipv4Addr,
    socket: SocketAddr,
    purpose: SocketAddrUse,
)
    ensures
        purpose.is_bind() ==> (egress_allowed(tap_ip, socket, purpose) <==> (socket matches SocketAddr::V4(
            v4,
        ) && v4.ip == tap_ip)),
        purpose.is_bind() && socket is V6 ==> !egress_allowed(tap_ip, socket, purpose),
        !purpose.is_bind() ==> egress_allowed(tap_ip, socket, purpose),
        call_failure(false) == LambdaError::FunctionExecError,
{
}

/// Removing a module leaves every function as it was: a function made
/// from the module can be called afterwards as before, on the same
/// component.
pub proof fn law_module_removal_keeps_functions(
    before: RuntimeView,
    module: Seq<char>,
    removed: Result<(), RuntimeError>,
    between: RuntimeView,
    func_id: Seq<char>,
    args: Seq<char>,
    started: Result<Invocation, RuntimeError>,
    after: RuntimeView,
)
    requires
        remove_module_outcome(before, module, removed, between),
        before.functions.contains_key(func_id),
        exec_function_outcome(between, func_id, args, started, after),
    ensures
        between.functions == before.functions,
        started matches Ok(invocation) && invocation.component
            == before.functions[func_id].lambda.compiled(),
{
}

/// Registering the same bytes a second time returns the id that the first
/// registration returned, and registers nothing.
pub proof fn law_same_bytes_same_module(
    before: RuntimeView,
    bytes: Seq<u8>,
    first: String,
    between: RuntimeView,
    second: Result<String, RuntimeError>,
    after: RuntimeView,
)
    requires
        before.wf(),
        between.wf(),
        register_module_outcome(before, bytes, Ok(first), between),
        register_module_outcome(between, bytes, second, after),
    ensures
        second matches Ok(id) && id@ == first@,
        after.modules == between.modules,
{
    law_registered_module_is_found(before, bytes, first, between);
}

/// No more functions are registered than the settings allow, and their
/// memory caps together stay within the memory budget.
pub proof fn law_functions_within_budget(runtime: RuntimeView)
    requires
        runtime.wf(),
    ensures
        runtime.functions.dom().len() <= runtime.max_functions,
        runtime.functions.dom().len() * runtime.per_function_memory() <= runtime.memory,
{
    let count = runtime.functions.dom().len() as int;
    let max = runtime.max_functions as int;
    let share = runtime.per_function_memory();
    if max > 0 {
        assert(share * max <= runtime.memory) by (nonlinear_arith)
            requires
                max > 0,
                share == runtime.memory as int / max,
        ;
        assert(count * share <= max * share) by (nonlinear_arith)
            requires
                0 <= count <= max,
                share >= 0,
        ;
    }
}

/// Once as many functions have been initialized as the settings allow,
/// every further one is refused, under whatever id.
pub proof fn law_no_oversubscription(
    before: RuntimeView,
    module: Seq<char>,
    tap_ip: Ipv4Addr,
    func_id: Seq<char>,
    made: Result<String, RuntimeError>,
    after: RuntimeView,
)
    requires
        before.allocated == before.max_functions,
        init_function_outcome(before, module, tap_ip, func_id, made, after),
    ensures
        made matches Err(RuntimeError::MaxFunctionDeplaymentReached),
        after == before,
{
}

/// Removing a function does not give back its place: the count of
/// initialized functions is what it was.
pub proof fn law_removal_keeps_count(
    before: RuntimeView,
    func_id: Seq<char>,
    removed: bool,
    after: RuntimeView,
)
    requires
        remove_function_outcome(before, func_id, removed, after),
    ensures
        after.allocated == before.allocated,
        !after.functions.contains_key(func_id),
{
}

} // verus!
