//! The control plane as plain values, and what each of its operations
//! comes to.
//!
//! A [`RuntimeView`] is what a runtime holds at one moment. For each
//! operation a predicate relates the view before it, its arguments, its
//! result and the view after it; the operations promise their predicate.

use super::egress::Ipv4Addr;
use super::checksum::crc32;
use super::ids::is_id;
use super::ids::MODULE_ID_LEN;
use super::invocation::Invocation;
use super::invocation::RunStep;
use super::lambda::MIN_MEMORY_SIZE;
use super::lambda_error::LambdaError;
use super::registry::status_for;
use super::registry::FunctionHandler;
use super::registry::FunctionHandlerStatus;
use super::registry::ModuleHandler;
use super::runtime_error::RuntimeError;
use std::sync::Arc;
use vstd::prelude::*;
use wasmtime::component::Component;
use wasmtime::Engine;

verus! {

/// A runtime as plain values.
pub struct RuntimeView {
    /// How many engines the pool holds.
    pub vcpus: usize,
    /// The memory budget of all functions together, in bytes.
    pub memory: usize,
    /// How many functions may be initialized.
    pub max_functions: usize,
    /// How many functions have been initialized.
    pub allocated: usize,
    /// The engines of the pool.
    pub engines: Seq<Arc<Engine>>,
    /// The place in the pool of the engine that is handed out next.
    pub cursor: usize,
    /// The registered modules, by module id.
    pub modules: Map<Seq<char>, ModuleHandler>,
    /// The function sandboxes, by function id.
    pub functions: Map<Seq<char>, FunctionHandler>,
}

impl RuntimeView {
    /// The memory cap of each function: an equal share of the budget.
    pub open spec fn per_function_memory(self) -> int {
        self.memory as int / self.max_functions as int
    }

    /// Whether no two registered modules have the same checksum.
    pub open spec fn modules_distinct(self) -> bool {
        forall|a: Seq<char>, b: Seq<char>|
            #![trigger self.modules[a], self.modules[b]]
            self.modules.contains_key(a) && self.modules.contains_key(b) && self.modules[a].hash
                == self.modules[b].hash ==> a == b
    }

    /// Whether every function sandbox is valid and has the memory cap that
    /// the settings give.
    pub open spec fn functions_valid(self) -> bool {
        forall|f: Seq<char>| #[trigger]
            self.functions.contains_key(f) ==> self.functions[f].wf()
                && self.functions[f].lambda.memory_cap() == self.per_function_memory()
    }

    /// The invariant of a runtime: the pool holds as many engines as the
    /// settings say, and the cursor is at one of them; no more functions
    /// have been initialized than the settings allow, and no more are
    /// registered than have been initialized; modules are told apart by
    /// their checksums; every sandbox is valid.
    pub open spec fn wf(self) -> bool {
        &&& self.engines.len() == self.vcpus
        &&& (self.cursor < self.vcpus || self.cursor == 0)
        &&& self.allocated <= self.max_functions
        &&& self.modules.dom().finite()
        &&& self.functions.dom().finite()
        &&& self.functions.dom().len() <= self.allocated
        &&& self.modules_distinct()
        &&& self.functions_valid()
    }

    /// The cursor after one engine has been handed out: one further, and
    /// back at the first engine after the last.
    pub open spec fn next_cursor(self) -> usize {
        if self.cursor + 1 >= self.vcpus {
            0
        } else {
            (self.cursor + 1) as usize
        }
    }

    /// This view with the cursor moved on by one engine.
    pub open spec fn engine_taken(self) -> RuntimeView {
        RuntimeView { cursor: self.next_cursor(), ..self }
    }

    /// Whether a module with this checksum is registered.
    pub open spec fn has_hash(self, hash: u32) -> bool {
        exists|id: Seq<char>|
            self.modules.contains_key(id) && (#[trigger] self.modules[id]).hash == hash
    }

    /// The id of the module with this checksum, where one is registered.
    pub open spec fn id_of_hash(self, hash: u32) -> Seq<char> {
        choose|id: Seq<char>|
            self.modules.contains_key(id) && (#[trigger] self.modules[id]).hash == hash
    }
}

/// What taking an engine from the pool comes to: the engine under the
/// cursor, and the cursor moved on; nothing where the pool is empty.
pub open spec fn get_engine_outcome(
    before: RuntimeView,
    engine: Option<Arc<Engine>>,
    after: RuntimeView,
) -> bool {
    if before.vcpus == 0 {
        engine is None && after == before
    } else {
        engine == Some(before.engines[before.cursor as int]) && after == before.engine_taken()
    }
}

/// What adding a module under the id `id` comes to. A module with the same
/// checksum that is registered already is the answer, and nothing changes;
/// failing that, an id that is in use is refused; failing that, the module
/// is registered under `id`.
pub open spec fn add_module_outcome(
    before: RuntimeView,
    id: Seq<char>,
    handler: ModuleHandler,
    result: Result<String, RuntimeError>,
    after: RuntimeView,
) -> bool {
    if before.has_hash(handler.hash) {
        &&& result matches Ok(found)
        &&& found@ == before.id_of_hash(handler.hash)
        &&& after == before
    } else if before.modules.contains_key(id) {
        &&& result matches Err(RuntimeError::ModuleAlreadyReg)
        &&& after == before
    } else {
        &&& result matches Ok(added)
        &&& added@ == id
        &&& after == (RuntimeView { modules: before.modules.insert(id, handler), ..before })
    }
}

/// What registering what came of a compilation comes to: a failed
/// compilation is refused, and a compiled module is added under some id of
/// [`MODULE_ID_LEN`] URL-safe characters.
pub open spec fn admit_module_outcome(
    before: RuntimeView,
    hash: u32,
    compiled: Result<Component, anyhow::Error>,
    result: Result<String, RuntimeError>,
    after: RuntimeView,
) -> bool {
    match compiled {
        Err(_) => (result matches Err(RuntimeError::ComponentBuildError)) && after == before,
        Ok(component) => exists|id: Seq<char>, shared: Arc<Component>|
            is_id(id, MODULE_ID_LEN as nat) && *shared == component && #[trigger] add_module_outcome(
                before,
                id,
                (ModuleHandler { component: shared, hash }),
                result,
                after,
            ),
    }
}

/// What registering a module from `bytes` comes to.
///
/// Without an engine in the pool it is refused. With one, the cursor of
/// the pool moves on, and bytes with the checksum of a registered module
/// get the id of that module. Other bytes are compiled: the outcome is the
/// one of [`admit_module_outcome`] for some result of the compilation.
pub open spec fn register_module_outcome(
    before: RuntimeView,
    bytes: Seq<u8>,
    result: Result<String, RuntimeError>,
    after: RuntimeView,
) -> bool {
    if before.vcpus == 0 {
        (result matches Err(RuntimeError::EngineInitError)) && after == before
    } else if before.has_hash(crc32(bytes)) {
        &&& result matches Ok(id)
        &&& id@ == before.id_of_hash(crc32(bytes))
        &&& after == before.engine_taken()
    } else {
        exists|compiled: Result<Component, anyhow::Error>| #[trigger]
            admit_module_outcome(before.engine_taken(), crc32(bytes), compiled, result, after)
    }
}

/// What removing the module `id` comes to: it is gone where it was
/// registered, and nothing else changes.
pub open spec fn remove_module_outcome(
    before: RuntimeView,
    id: Seq<char>,
    result: Result<(), RuntimeError>,
    after: RuntimeView,
) -> bool {
    if before.modules.contains_key(id) {
        result is Ok && after == (RuntimeView { modules: before.modules.remove(id), ..before })
    } else {
        (result matches Err(RuntimeError::ModuleNotRegistered)) && after == before
    }
}

/// Whether `handler` is the handler of a sandbox just made from `component`
/// with the given memory cap and permitted address: ready, with no call in
/// flight and no stop requested, the egress check switched on and no
/// directory opened.
pub open spec fn fresh_handler(
    handler: FunctionHandler,
    component: Arc<Component>,
    memory: int,
    tap_ip: Ipv4Addr,
) -> bool {
    &&& handler.wf()
    &&& handler.status == FunctionHandlerStatus::Ready
    &&& handler.running == 0
    &&& handler.lambda.compiled() == component
    &&& handler.lambda.memory_cap() == memory
    &&& handler.lambda.permitted_ip() == tap_ip
    &&& handler.lambda.flags().socket_addr_check == Some(())
    &&& handler.lambda.flags().file_mapper is None
    &&& !handler.lambda.stopped()
}

/// What initializing a function of the module `module` under the id
/// `func_id` comes to: the first check that fails decides the error, and
/// nothing changes; where none fails, the function is counted and its
/// sandbox registered under `func_id`.
pub open spec fn init_function_outcome(
    before: RuntimeView,
    module: Seq<char>,
    tap_ip: Ipv4Addr,
    func_id: Seq<char>,
    result: Result<String, RuntimeError>,
    after: RuntimeView,
) -> bool {
    if before.allocated >= before.max_functions {
        &&& result matches Err(RuntimeError::MaxFunctionDeplaymentReached)
        &&& after == before
    } else if !before.modules.contains_key(module) {
        &&& result matches Err(RuntimeError::ComponentNotFound)
        &&& after == before
    } else if before.per_function_memory() < MIN_MEMORY_SIZE {
        &&& result matches Err(RuntimeError::FunctionInitError(reason))
        &&& reason@ == LambdaError::NotEnoughtMemory.message()
        &&& after == before
    } else if before.functions.contains_key(func_id) {
        &&& result matches Err(RuntimeError::FunctionAlreadyInitialized)
        &&& after == before
    } else {
        &&& result matches Ok(id)
        &&& id@ == func_id
        &&& after == (RuntimeView {
            allocated: (before.allocated + 1) as usize,
            functions: after.functions,
            ..before
        })
        &&& after.functions.contains_key(func_id)
        &&& after.functions.remove(func_id) == before.functions
        &&& fresh_handler(
            after.functions[func_id],
            before.modules[module].component,
            before.per_function_memory(),
            tap_ip,
        )
    }
}

/// What removing the function `func_id` comes to: it is gone, and says
/// whether it was there; the count of initialized functions stays.
pub open spec fn remove_function_outcome(
    before: RuntimeView,
    func_id: Seq<char>,
    removed: bool,
    after: RuntimeView,
) -> bool {
    &&& removed == before.functions.contains_key(func_id)
    &&& after == (RuntimeView { functions: before.functions.remove(func_id), ..before })
}

/// The handler `handler` once one more call is in flight.
pub open spec fn handler_in_call(handler: FunctionHandler) -> FunctionHandler {
    let running = if handler.running < usize::MAX {
        (handler.running + 1) as usize
    } else {
        handler.running
    };
    FunctionHandler {
        lambda: handler.lambda,
        status: status_for(handler.lambda.stopped(), running as nat),
        running,
    }
}

/// The handler `handler` once one call fewer is in flight.
pub open spec fn handler_after_call(handler: FunctionHandler) -> FunctionHandler {
    let running = if handler.running > 0 {
        (handler.running - 1) as usize
    } else {
        0
    };
    FunctionHandler {
        lambda: handler.lambda,
        status: status_for(handler.lambda.stopped(), running as nat),
        running,
    }
}

/// What starting a call of the function `func_id` on `args` comes to: an
/// invocation at its first step, with the arguments, a store planned from
/// the sandbox, the sandbox's component and its stop signal; and the
/// function noted as having one more call in flight.
pub open spec fn exec_function_outcome(
    before: RuntimeView,
    func_id: Seq<char>,
    args: Seq<char>,
    result: Result<Invocation, RuntimeError>,
    after: RuntimeView,
) -> bool {
    if !before.functions.contains_key(func_id) {
        (result matches Err(RuntimeError::FunctionNotRegistered)) && after == before
    } else {
        let handler = before.functions[func_id];
        &&& result matches Ok(invocation)
        &&& invocation.step == RunStep::LinkWasi
        &&& invocation.args@ == args
        &&& invocation.store@ == handler.lambda.planned_store()
        &&& invocation.component == handler.lambda.compiled()
        &&& invocation.stop == handler.lambda.signal()
        &&& after == (RuntimeView {
            functions: before.functions.insert(func_id, handler_in_call(handler)),
            ..before
        })
    }
}

/// What a caller of the control plane gets for the outcome of a guest
/// call: the output as it is, and a failure wrapped with its text.
pub open spec fn exec_result_for(
    outcome: Result<String, LambdaError>,
    result: Result<String, RuntimeError>,
) -> bool {
    match outcome {
        Ok(output) => result matches Ok(same) && same == output,
        Err(e) => result matches Err(RuntimeError::FunctionExecError(reason)) && reason@
            == e.message(),
    }
}

/// What ending a call of the function `func_id` with `outcome` comes to:
/// the result for the caller, and the function, where it is still
/// registered, noted as having one call fewer in flight.
pub open spec fn exec_result_outcome(
    before: RuntimeView,
    func_id: Seq<char>,
    outcome: Result<String, LambdaError>,
    result: Result<String, RuntimeError>,
    after: RuntimeView,
) -> bool {
    &&& exec_result_for(outcome, result)
    &&& if before.functions.contains_key(func_id) {
        after == (RuntimeView {
            functions: before.functions.insert(
                func_id,
                handler_after_call(before.functions[func_id]),
            ),
            ..before
        })
    } else {
        after == before
    }
}

/// Whether `after` is the handler `before` with a stop requested and
/// nothing else changed.
pub open spec fn handler_stopped(before: FunctionHandler, after: FunctionHandler) -> bool {
    &&& after.wf()
    &&& after.status == FunctionHandlerStatus::Stopped
    &&& after.running == before.running
    &&& after.lambda.stopped()
    &&& after.lambda.compiled() == before.lambda.compiled()
    &&& after.lambda.memory_cap() == before.lambda.memory_cap()
    &&& after.lambda.permitted_ip() == before.lambda.permitted_ip()
    &&& after.lambda.flags() == before.lambda.flags()
    &&& after.lambda.signal() == before.lambda.signal()
}

/// What requesting a stop of the function `func_id` comes to: it is
/// refused where the function is not registered, and where a stop has been
/// requested of it before; otherwise the stop is requested of that
/// function, and nothing else changes.
pub open spec fn stop_function_outcome(
    before: RuntimeView,
    func_id: Seq<char>,
    result: Result<(), RuntimeError>,
    after: RuntimeView,
) -> bool {
    if !before.functions.contains_key(func_id) {
        (result matches Err(RuntimeError::FunctionNotRegistered)) && after == before
    } else if before.functions[func_id].lambda.stopped() {
        &&& result matches Err(RuntimeError::FunctionStopError(reason))
        &&& reason@ == LambdaError::FunctionNotRunning.message()
        &&& after == before
    } else {
        &&& result is Ok
        &&& after == (RuntimeView { functions: after.functions, ..before })
        &&& after.functions.contains_key(func_id)
        &&& after.functions.remove(func_id) == before.functions.remove(func_id)
        &&& handler_stopped(before.functions[func_id], after.functions[func_id])
    }
}

} // verus!
