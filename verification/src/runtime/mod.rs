//! The control plane and what it is built from.
//!
//! A [`Runtime`] holds a pool of engines, the registry of compiled modules
//! and the registry of function sandboxes. Modules are registered from
//! their bytes and told apart by checksum; functions are sandboxes made
//! from a registered module, up to a fixed number of them, each with an
//! equal share of the memory budget.
//!
//! A runtime is used by one caller at a time: the operations that change it
//! take it by `&mut`. A guest call does not hold the runtime while it runs:
//! [`Runtime::exec_function`] hands out an [`invocation::Invocation`] for
//! the host to drive, and [`Runtime::exec_result`] takes its outcome.

pub mod checksum;
pub mod egress;
pub mod host;
pub mod ids;
pub mod invocation;
pub mod lambda;
pub mod lambda_error;
pub mod laws;
pub mod model;
pub mod registry;
pub mod runtime_error;
pub mod wasi_flags;

pub use ids::FUNCTION_ID_LEN;
pub use ids::MODULE_ID_LEN;
pub use model::RuntimeView;
pub use registry::FunctionHandler;
pub use registry::FunctionHandlerStatus;
pub use registry::ModuleHandler;

use dashmap::DashMap;
use egress::Ipv4Addr;
use checksum::crc32;
use checksum::crc32_of;
use ids::is_id;
use ids::random_id;
use invocation::Invocation;
use lambda::Lambda;
use lambda_error::LambdaError;
use model::add_module_outcome;
use model::admit_module_outcome;
use model::exec_function_outcome;
use model::exec_result_outcome;
use model::get_engine_outcome;
use model::handler_after_call;
use model::handler_in_call;
use model::init_function_outcome;
use model::register_module_outcome;
use model::remove_function_outcome;
use model::remove_module_outcome;
use model::stop_function_outcome;
use registry::function_entries;
use registry::functions_contains;
use registry::functions_insert;
use registry::functions_new;
use registry::functions_remove;
use registry::functions_status;
use registry::module_entries;
use registry::modules_get;
use registry::modules_hashes;
use registry::modules_insert;
use registry::modules_new;
use registry::modules_remove;
use runtime_error::RuntimeError;
use std::sync::Arc;
use vstd::prelude::*;
use wasi_flags::WasiFlags;
use wasmtime::component::Component;
use wasmtime::Config;
use wasmtime::Engine;
use wasmtime::OptLevel;

verus! {

/// The identifier of a registered module: [`MODULE_ID_LEN`] URL-safe
/// characters.
pub type ModuleID = String;

/// The identifier of a function sandbox: [`FUNCTION_ID_LEN`] URL-safe
/// characters.
pub type FunctionID = String;

/// The settings that a [`Runtime`] is built from.
#[derive(Clone, Copy, Debug, PartialEq, Eq, Structural)]
pub struct RuntimeBuilder {
    /// How many engines the pool holds.
    pub vcpus: usize,
    /// The memory budget of all functions together, in bytes.
    pub memory: usize,
    /// How many functions may be initialized.
    pub max_functions: usize,
}

/// The settings of an engine that the runtime decides on.
#[derive(Clone, Copy, Debug, PartialEq, Eq)]
pub struct EngineSettings {
    /// Whether guests run asynchronously, yielding to the host's scheduler.
    pub async_support: bool,
    /// Whether the engine takes components.
    pub wasm_component_model: bool,
    /// Whether guests watch the engine's epoch, so that they can be
    /// interrupted.
    pub epoch_interruption: bool,
    /// How hard the code generator optimizes.
    pub opt_level: OptLevel,
}

impl EngineSettings {
    /// The engine's own settings with these switched as they say. The
    /// result is opaque, so nothing is said of it.
    pub fn config(&self) -> Config {
        let mut config = Config::new();
        config.async_support(self.async_support);
        config.wasm_component_model(self.wasm_component_model);
        config.epoch_interruption(self.epoch_interruption);
        config.cranelift_opt_level(self.opt_level);
        config
    }
}

/// The settings for an engine: asynchronous execution and the component
/// model as asked, epoch-based interruption switched on, and code optimized
/// for speed and size.
pub fn engine_config(async_support: bool, wasm_component_model: bool) -> (settings: EngineSettings)
    ensures
        settings == (EngineSettings {
            async_support,
            wasm_component_model,
            epoch_interruption: true,
            opt_level: OptLevel::SpeedAndSize,
        }),
{
    EngineSettings {
        async_support,
        wasm_component_model,
        epoch_interruption: true,
        opt_level: OptLevel::SpeedAndSize,
    }
}

/// What the control plane makes of an attempt to build an engine: the
/// engine where the attempt succeeded, [`RuntimeError::EngineInitError`]
/// where it failed.
pub fn engine_or_error(
    built: Result<Engine, anyhow::Error>,
) -> (engine: Result<Engine, RuntimeError>)
    ensures
        built matches Ok(made) ==> engine matches Ok(same) && same == made,
        built is Err ==> engine matches Err(RuntimeError::EngineInitError),
{
    match built {
        Ok(engine) => Ok(engine),
        Err(_) => Err(RuntimeError::EngineInitError),
    }
}

/// What the control plane makes of an attempt to compile a component: the
/// component where the attempt succeeded,
/// [`RuntimeError::ComponentBuildError`] where it failed.
pub fn component_or_error(
    compiled: Result<Component, anyhow::Error>,
) -> (component: Result<Component, RuntimeError>)
    ensures
        compiled matches Ok(made) ==> component matches Ok(same) && same == made,
        compiled is Err ==> component matches Err(RuntimeError::ComponentBuildError),
{
    match compiled {
        Ok(component) => Ok(component),
        Err(_) => Err(RuntimeError::ComponentBuildError),
    }
}

impl RuntimeBuilder {
    /// Sets how many engines the pool holds.
    pub fn set_cpus(&mut self, vcpus: usize) -> (same: &mut Self)
        ensures
            *same == (RuntimeBuilder { vcpus, ..*old(self) }),
            *final(self) == *final(same),
    {
        self.vcpus = vcpus;
        self
    }

    /// Sets the memory budget of all functions together, in bytes.
    pub fn set_total_memory_size(&mut self, memory_size: usize) -> (same: &mut Self)
        ensures
            *same == (RuntimeBuilder { memory: memory_size, ..*old(self) }),
            *final(self) == *final(same),
    {
        self.memory = memory_size;
        self
    }

    /// Sets how many functions may be initialized.
    pub fn set_max_functions_number(&mut self, size: usize) -> (same: &mut Self)
        ensures
            *same == (RuntimeBuilder { max_functions: size, ..*old(self) }),
            *final(self) == *final(same),
    {
        self.max_functions = size;
        self
    }

    /// Builds `num` engines from `config`. The first engine that cannot be
    /// built ends the attempt.
    pub fn gen_engines(
        &self,
        num: usize,
        config: &Config,
    ) -> (engines: Result<Vec<Arc<Engine>>, RuntimeError>)
        ensures
            engines matches Ok(pool) ==> pool@.len() == num,
            engines matches Err(e) ==> e == RuntimeError::EngineInitError,
            num == 0 ==> engines is Ok,
    {
        let mut engines: Vec<Arc<Engine>> = Vec::new();
        let mut built: usize = 0;
        while built < num
            invariant
                built <= num,
                engines@.len() == built,
            decreases num - built,
        {
            match engine_or_error(Engine::new(config)) {
                Ok(engine) => engines.push(Arc::new(engine)),
                Err(e) => {
                    return Err(e);
                },
            }
            built += 1;
        }
        Ok(engines)
    }

    /// Builds the runtime: all engines of the pool are built up front, the
    /// registries start empty, and no function has been initialized. It
    /// fails where an engine cannot be built.
    pub fn build(&self) -> (built: Result<Runtime, RuntimeError>)
        ensures
            built matches Ok(runtime) ==> {
                &&& runtime.wf()
                &&& runtime@.vcpus == self.vcpus
                &&& runtime@.memory == self.memory
                &&& runtime@.max_functions == self.max_functions
                &&& runtime@.allocated == 0
                &&& runtime@.cursor == 0
                &&& runtime@.modules.dom() =~= Set::empty()
                &&& runtime@.functions.dom() =~= Set::empty()
            },
            built matches Err(e) ==> e == RuntimeError::EngineInitError,
            self.vcpus == 0 ==> built is Ok,
    {
        let engines_config = engine_config(true, true).config();
        let engines = match self.gen_engines(self.vcpus, &engines_config) {
            Ok(engines) => engines,
            Err(e) => {
                return Err(e);
            },
        };
        Ok(
            Runtime {
                vcpus: self.vcpus,
                memory: self.memory,
                max_functions: self.max_functions,
                currently_allocated_functions: 0,
                engines,
                engine_rotatory_index: 0,
                modules: modules_new(),
                functions: functions_new(),
            },
        )
    }
}

/// The control plane.
pub struct Runtime {
    vcpus: usize,
    memory: usize,
    max_functions: usize,
    currently_allocated_functions: usize,
    engines: Vec<Arc<Engine>>,
    engine_rotatory_index: usize,
    modules: DashMap<String, Arc<ModuleHandler>>,
    functions: DashMap<String, FunctionHandler>,
}

impl View for Runtime {
    type V = RuntimeView;

    closed spec fn view(&self) -> RuntimeView {
        RuntimeView {
            vcpus: self.vcpus,
            memory: self.memory,
            max_functions: self.max_functions,
            allocated: self.currently_allocated_functions,
            engines: self.engines@,
            cursor: self.engine_rotatory_index,
            modules: module_entries(self.modules),
            functions: function_entries(self.functions),
        }
    }
}

impl Runtime {
    /// The invariant of a runtime.
    pub open spec fn wf(&self) -> bool {
        self@.wf()
    }

    /// The settings to start from: one engine, memory for a hundred
    /// functions of 2 MiB each, and at most a hundred functions.
    pub fn new() -> (builder: RuntimeBuilder)
        ensures
            builder == (RuntimeBuilder { vcpus: 1, memory: 209715200, max_functions: 100 }),
    {
        RuntimeBuilder { vcpus: 1, memory: 1024 * 1024 * 2 * 100, max_functions: 100 }
    }

    /// The settings of a runtime for general use: one engine, 100 MiB of
    /// memory, and at most 25 functions.
    pub fn default_settings() -> (builder: RuntimeBuilder)
        ensures
            builder == (RuntimeBuilder { vcpus: 1, memory: 104857600, max_functions: 25 }),
    {
        let mut builder = Runtime::new();
        builder.set_cpus(1).set_total_memory_size(1024 * 1024 * 100).set_max_functions_number(25);
        builder
    }

    /// Hands out the engine under the cursor and moves the cursor on by
    /// one, back to the first engine after the last. There is none to hand
    /// out where the pool is empty.
    pub fn get_engine(&mut self) -> (engine: Option<Arc<Engine>>)
        requires
            old(self).wf(),
        ensures
            final(self).wf(),
            get_engine_outcome(old(self)@, engine, final(self)@),
    {
        if self.engines.len() == 0 {
            return None;
        }
        let index = self.engine_rotatory_index;
        let engine = self.engines[index].clone();
        self.engine_rotatory_index = if index + 1 >= self.vcpus {
            0
        } else {
            index + 1
        };
        Some(engine)
    }

    /// The checksum by which modules are told apart.
    pub fn gen_module_hash(&self, bytes: &[u8]) -> (hash: u32)
        ensures
            hash == crc32(bytes@),
    {
        crc32_of(bytes)
    }

    /// Looks for the registered module with the given checksum.
    #[verifier::loop_isolation(false)]
    pub fn find_module(&self, hash: u32) -> (found: Option<ModuleID>)
        requires
            self.wf(),
        ensures
            found is Some <==> self@.has_hash(hash),
            found matches Some(id) ==> id@ == self@.id_of_hash(hash),
    {
        let listed = modules_hashes(&self.modules);
        let mut i: usize = 0;
        while i < listed.len()
            invariant
                i <= listed.len(),
                forall|j: int| 0 <= j < i ==> (#[trigger] listed@[j]).1 != hash,
            decreases listed.len() - i,
        {
            if listed[i].1 == hash {
                let id = listed[i].0.clone();
                return Some(id);
            }
            i += 1;
        }
        None
    }

    /// Registers a compiled module under the id `module_id`, unless a
    /// module with the same checksum is registered already, which is then
    /// the one returned, or the id is in use.
    pub fn add_module(
        &mut self,
        module_id: ModuleID,
        component: Arc<Component>,
        hash: u32,
    ) -> (added: Result<ModuleID, RuntimeError>)
        requires
            old(self).wf(),
        ensures
            final(self).wf(),
            add_module_outcome(
                old(self)@,
                module_id@,
                (ModuleHandler { component, hash }),
                added,
                final(self)@,
            ),
    {
        if let Some(found) = self.find_module(hash) {
            return Ok(found);
        }
        if modules_get(&self.modules, module_id.as_str()).is_some() {
            return Err(RuntimeError::ModuleAlreadyReg);
        }
        let handler = Arc::new(ModuleHandler { component, hash });
        modules_insert(&mut self.modules, module_id.clone(), handler);
        Ok(module_id)
    }

    /// Registers what came of compiling a module with checksum `hash`. A
    /// failed compilation is refused. A compiled module is registered under
    /// an id drawn at random, as [`Runtime::add_module`] has it.
    pub fn admit_module(
        &mut self,
        hash: u32,
        compiled: Result<Component, anyhow::Error>,
    ) -> (admitted: Result<ModuleID, RuntimeError>)
        requires
            old(self).wf(),
        ensures
            final(self).wf(),
            admit_module_outcome(old(self)@, hash, compiled, admitted, final(self)@),
    {
        match component_or_error(compiled) {
            Ok(component) => {
                let module_id = random_id(MODULE_ID_LEN);
                self.add_module(module_id, Arc::new(component), hash)
            },
            Err(e) => Err(e),
        }
    }

    /// Registers a module from the bytes of a component and returns its
    /// id.
    ///
    /// An engine is taken from the pool; there must be one. Bytes whose
    /// checksum is that of a registered module are not compiled again: the
    /// id of that module is returned. Other bytes are compiled with the
    /// engine, and the result is registered as [`Runtime::admit_module`]
    /// has it.
    pub fn register_module(
        &mut self,
        bytes: Vec<u8>,
    ) -> (registered: Result<ModuleID, RuntimeError>)
        requires
            old(self).wf(),
        ensures
            final(self).wf(),
            register_module_outcome(old(self)@, bytes@, registered, final(self)@),
    {
        let engine = match self.get_engine() {
            Some(engine) => engine,
            None => {
                return Err(RuntimeError::EngineInitError);
            },
        };
        let hash = self.gen_module_hash(bytes.as_slice());
        if let Some(found) = self.find_module(hash) {
            return Ok(found);
        }
        let compiled = Component::from_binary(&engine, bytes.as_slice());
        self.admit_module(hash, compiled)
    }

    /// Takes a module out of the registry. Sandboxes made from it keep
    /// their own hold on the compiled component and are not touched.
    pub fn remove_module(&mut self, id: ModuleID) -> (removed: Result<(), RuntimeError>)
        requires
            old(self).wf(),
        ensures
            final(self).wf(),
            remove_module_outcome(old(self)@, id@, removed, final(self)@),
    {
        if modules_remove(&mut self.modules, id.as_str()) {
            return Ok(());
        }
        assert(self@.modules =~= old(self)@.modules);
        Err(RuntimeError::ModuleNotRegistered)
    }

    /// Initializes a function of the module `id` under the function id
    /// `func_id`.
    ///
    /// It is refused where as many functions have been initialized as the
    /// settings allow, where the module is not registered, where the
    /// function's share of the memory budget is too small for a sandbox,
    /// and where the function id is in use; the checks are made in this
    /// order. A refusal changes nothing: the count of initialized functions
    /// is the same after it as before.
    pub fn init_function_as(
        &mut self,
        id: ModuleID,
        tap_ip: Ipv4Addr,
        func_id: FunctionID,
    ) -> (made: Result<FunctionID, RuntimeError>)
        requires
            old(self).wf(),
        ensures
            final(self).wf(),
            init_function_outcome(old(self)@, id@, tap_ip, func_id@, made, final(self)@),
    {
        if self.currently_allocated_functions >= self.max_functions {
            return Err(RuntimeError::MaxFunctionDeplaymentReached);
        }
        let component = match modules_get(&self.modules, id.as_str()) {
            Some(handler) => handler.component.clone(),
            None => {
                return Err(RuntimeError::ComponentNotFound);
            },
        };
        let func_mem_size = self.memory / self.max_functions;
        self.currently_allocated_functions = self.currently_allocated_functions + 1;
        let lambda = match Lambda::new(component, func_mem_size, tap_ip, WasiFlags::default()) {
            Ok(lambda) => lambda,
            Err(e) => {
                self.currently_allocated_functions = self.currently_allocated_functions - 1;
                return Err(RuntimeError::FunctionInitError(e.to_string()));
            },
        };
        if functions_contains(&self.functions, func_id.as_str()) {
            self.currently_allocated_functions = self.currently_allocated_functions - 1;
            return Err(RuntimeError::FunctionAlreadyInitialized);
        }
        functions_insert(&mut self.functions, func_id.clone(), FunctionHandler::new(lambda));
        assert(self@.functions.remove(func_id@) =~= old(self)@.functions);
        Ok(func_id)
    }

    /// Initializes a function of the module `id`, with `tap_ip` as the one
    /// address that its guest may bind, under an id of [`FUNCTION_ID_LEN`]
    /// URL-safe characters drawn at random, as
    /// [`Runtime::init_function_as`] has it.
    pub fn init_function(
        &mut self,
        id: ModuleID,
        tap_ip: Ipv4Addr,
    ) -> (made: Result<FunctionID, RuntimeError>)
        requires
            old(self).wf(),
        ensures
            final(self).wf(),
            exists|func_id: Seq<char>|
                is_id(func_id, FUNCTION_ID_LEN as nat) && #[trigger] init_function_outcome(
                    old(self)@,
                    id@,
                    tap_ip,
                    func_id,
                    made,
                    final(self)@,
                ),
    {
        let func_id = random_id(FUNCTION_ID_LEN);
        self.init_function_as(id, tap_ip, func_id)
    }

    /// Takes a function out of the registry and says whether it was there.
    /// A call of it that is in flight is not cancelled, and the count of
    /// initialized functions stays as it is.
    pub fn remove_function(&mut self, func_id: FunctionID) -> (removed: bool)
        requires
            old(self).wf(),
        ensures
            final(self).wf(),
            remove_function_outcome(old(self)@, func_id@, removed, final(self)@),
    {
        functions_remove(&mut self.functions, func_id.as_str()).is_some()
    }

    /// Starts a call of the function `func_id` on `args`: the invocation
    /// returned is at its first step, with a store planned for this call
    /// alone. The function is noted as having one more call in flight.
    pub fn exec_function(
        &mut self,
        func_id: FunctionID,
        args: &str,
    ) -> (started: Result<Invocation, RuntimeError>)
        requires
            old(self).wf(),
        ensures
            final(self).wf(),
            exec_function_outcome(old(self)@, func_id@, args@, started, final(self)@),
    {
        let mut handler = match functions_remove(&mut self.functions, func_id.as_str()) {
            Some(handler) => handler,
            None => {
                assert(self@.functions =~= old(self)@.functions);
                return Err(RuntimeError::FunctionNotRegistered);
            },
        };
        let invocation = handler.lambda.run(args);
        handler.call_started();
        functions_insert(&mut self.functions, func_id, handler);
        assert(self@.functions =~= old(self)@.functions.insert(
            func_id@,
            handler_in_call(old(self)@.functions[func_id@]),
        ));
        Ok(invocation)
    }

    /// Ends a call of the function `func_id` with `outcome`: the guest's
    /// output is handed on as it is, and an error is wrapped with its
    /// text. The function, where it is still registered, is noted as having
    /// one call fewer in flight.
    pub fn exec_result(
        &mut self,
        func_id: FunctionID,
        outcome: Result<String, LambdaError>,
    ) -> (result: Result<String, RuntimeError>)
        requires
            old(self).wf(),
        ensures
            final(self).wf(),
            exec_result_outcome(old(self)@, func_id@, outcome, result, final(self)@),
    {
        match functions_remove(&mut self.functions, func_id.as_str()) {
            Some(handler) => {
                let mut handler = handler;
                handler.call_finished();
                functions_insert(&mut self.functions, func_id, handler);
                assert(self@.functions =~= old(self)@.functions.insert(
                    func_id@,
                    handler_after_call(old(self)@.functions[func_id@]),
                ));
            },
            None => {
                assert(self@.functions =~= old(self)@.functions);
            },
        }
        match outcome {
            Ok(output) => Ok(output),
            Err(e) => Err(RuntimeError::FunctionExecError(e.to_string())),
        }
    }

    /// Requests a stop of the function `func_id`. Its guest is stopped at
    /// the next yield point of any call in flight, and of any later call
    /// at its first. No other function is touched.
    pub fn stop_function(&mut self, func_id: FunctionID) -> (stopped: Result<(), RuntimeError>)
        requires
            old(self).wf(),
        ensures
            final(self).wf(),
            stop_function_outcome(old(self)@, func_id@, stopped, final(self)@),
    {
        let mut handler = match functions_remove(&mut self.functions, func_id.as_str()) {
            Some(handler) => handler,
            None => {
                assert(self@.functions =~= old(self)@.functions);
                return Err(RuntimeError::FunctionNotRegistered);
            },
        };
        let done = handler.stop();
        let ghost id = func_id@;
        functions_insert(&mut self.functions, func_id, handler);
        assert(self@.functions.remove(id) =~= old(self)@.functions.remove(id));
        match done {
            Ok(()) => Ok(()),
            Err(e) => {
                assert(self@.functions =~= old(self)@.functions);
                Err(RuntimeError::FunctionStopError(e.to_string()))
            },
        }
    }

    /// The status of the function `func_id`, where it is registered.
    pub fn function_status(&self, func_id: &str) -> (status: Option<FunctionHandlerStatus>)
        ensures
            status is Some <==> self@.functions.contains_key(func_id@),
            status matches Some(found) ==> found == self@.functions[func_id@].status,
    {
        functions_status(&self.functions, func_id)
    }

    /// Whether a module is registered under `id`.
    pub fn has_module(&self, id: &str) -> (present: bool)
        ensures
            present == self@.modules.contains_key(id@),
    {
        modules_get(&self.modules, id).is_some()
    }

    /// How many functions have been initialized.
    pub fn allocated_functions(&self) -> (count: usize)
        ensures
            count == self@.allocated,
    {
        self.currently_allocated_functions
    }

    /// The memory budget of all functions together, in bytes.
    pub fn memory(&self) -> (bytes: usize)
        ensures
            bytes == self@.memory,
    {
        self.memory
    }

    /// How many functions may be initialized.
    pub fn max_functions(&self) -> (count: usize)
        ensures
            count == self@.max_functions,
    {
        self.max_functions
    }

    /// How many engines the pool holds.
    pub fn vcpus(&self) -> (count: usize)
        ensures
            count == self@.vcpus,
    {
        self.vcpus
    }
}

} // verus!
