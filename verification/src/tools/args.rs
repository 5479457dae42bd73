//! The settings that a command line gives.

use crate::runtime::runtime_error::RuntimeError;
use crate::runtime::Runtime;
use crate::runtime::RuntimeBuilder;
use vstd::prelude::*;

verus! {

/// The number of engines where the command line names none.
pub const DEFAULT_CPUS: usize = 1;

/// The memory budget, in bytes, where the command line names none: 100 MiB.
pub const DEFAULT_MEMORY: usize = 104857600;

/// The cap on functions where the command line names none.
pub const DEFAULT_FUNC_CAP: usize = 25;

/// What the command line holds, each option as given or absent.
#[derive(Debug)]
pub struct ArgsParser {
    /// The address on which the front end listens.
    pub ip_address: Option<String>,
    /// The port on which the front end listens.
    pub port: Option<usize>,
    /// The number of engines.
    pub cpus: Option<usize>,
    /// The memory budget of all functions together, in bytes.
    pub memory: Option<usize>,
    /// The cap on functions.
    pub func_cap: Option<usize>,
}

/// `given` where there is one, `default` otherwise.
pub open spec fn value_or(given: Option<usize>, default: usize) -> usize {
    match given {
        Some(value) => value,
        None => default,
    }
}

impl ArgsParser {
    /// The settings of the runtime that the command line asks for: each
    /// option as given, or its default.
    pub fn settings(&self) -> (builder: RuntimeBuilder)
        ensures
            builder.vcpus == value_or(self.cpus, DEFAULT_CPUS),
            builder.memory == value_or(self.memory, DEFAULT_MEMORY),
            builder.max_functions == value_or(self.func_cap, DEFAULT_FUNC_CAP),
    {
        let cpus = match self.cpus {
            Some(cpus) => cpus,
            None => DEFAULT_CPUS,
        };
        let memory = match self.memory {
            Some(memory) => memory,
            None => DEFAULT_MEMORY,
        };
        let func_cap = match self.func_cap {
            Some(func_cap) => func_cap,
            None => DEFAULT_FUNC_CAP,
        };
        let mut builder = Runtime::new();
        builder.set_cpus(cpus).set_total_memory_size(memory).set_max_functions_number(func_cap);
        builder
    }
}

/// Builds the runtime that the command line asks for.
pub fn build_runtime(args: &ArgsParser) -> (built: Result<Runtime, RuntimeError>)
    ensures
        built matches Ok(runtime) ==> {
            &&& runtime.wf()
            &&& runtime@.vcpus == value_or(args.cpus, DEFAULT_CPUS)
            &&& runtime@.memory == value_or(args.memory, DEFAULT_MEMORY)
            &&& runtime@.max_functions == value_or(args.func_cap, DEFAULT_FUNC_CAP)
            &&& runtime@.allocated == 0
            &&& runtime@.modules.dom() =~= Set::empty()
            &&& runtime@.functions.dom() =~= Set::empty()
        },
        built matches Err(e) ==> e == RuntimeError::EngineInitError,
        args.cpus == Some(0usize) ==> built is Ok,
{
    args.settings().build()
}

} // verus!
