//! The two registries of the control plane: compiled modules by module id,
//! and function sandboxes by function id.
//!
//! Both are concurrent hash maps of the `dashmap` crate. The maps are
//! opaque in proofs: what one holds is named by a specification function,
//! and each map method that the runtime uses is reached through a small
//! function here whose contract says, over that name, what the method
//! does. None of those contracts is proved. They take the map by `&mut`
//! where the method changes it, so that a change is a change of value.

use super::lambda::stop_outcome;
use super::lambda::Lambda;
use super::lambda_error::LambdaError;
use dashmap::DashMap;
use std::sync::Arc;
use vstd::prelude::*;
use wasmtime::component::Component;

verus! {

/// `dashmap::DashMap`: a concurrent hash map. Opaque.
#[verifier::external_type_specification]
#[verifier::external_body]
#[verifier::reject_recursive_types(K)]
#[verifier::reject_recursive_types(V)]
#[verifier::reject_recursive_types(S)]
pub struct ExDashMap<K, V, S>(DashMap<K, V, S>);

/// A compiled module and the checksum of the bytes it was compiled from.
pub struct ModuleHandler {
    pub component: Arc<Component>,
    pub hash: u32,
}

/// Where a function sandbox stands.
#[derive(Clone, Copy, Debug, PartialEq, Eq, Structural)]
pub enum FunctionHandlerStatus {
    /// No call is in flight.
    Ready,
    /// At least one call is in flight.
    Running,
    /// A stop has been requested. This is final.
    Stopped,
}

/// The status of a sandbox, given whether a stop has been requested of it
/// and how many of its calls are in flight.
pub open spec fn status_for(stopped: bool, running: nat) -> FunctionHandlerStatus {
    if stopped {
        FunctionHandlerStatus::Stopped
    } else if running > 0 {
        FunctionHandlerStatus::Running
    } else {
        FunctionHandlerStatus::Ready
    }
}

/// A function sandbox with its status.
pub struct FunctionHandler {
    pub lambda: Lambda,
    pub status: FunctionHandlerStatus,
    /// How many calls are in flight.
    pub running: usize,
}

impl FunctionHandler {
    /// The invariant: the sandbox is valid, and the status is the one that
    /// goes with its stop request and its calls in flight.
    pub open spec fn wf(&self) -> bool {
        &&& self.lambda.wf()
        &&& self.status == status_for(self.lambda.stopped(), self.running as nat)
    }

    /// The handler of a sandbox with no call in flight.
    pub fn new(lambda: Lambda) -> (handler: FunctionHandler)
        ensures
            handler.wf(),
            handler.lambda == lambda,
            handler.running == 0,
    {
        let status = if lambda.stop_requested() {
            FunctionHandlerStatus::Stopped
        } else {
            FunctionHandlerStatus::Ready
        };
        proof {
            use_type_invariant(&lambda);
        }
        FunctionHandler { lambda, status, running: 0 }
    }

    /// Records that a call has been started. The count of calls in flight
    /// goes up by one, and stays where it cannot.
    pub fn call_started(&mut self)
        requires
            old(self).wf(),
        ensures
            final(self).wf(),
            final(self).lambda == old(self).lambda,
            final(self).running == if old(self).running < usize::MAX {
                old(self).running + 1
            } else {
                old(self).running as int
            },
    {
        if self.running < usize::MAX {
            self.running = self.running + 1;
        }
        if self.status == FunctionHandlerStatus::Ready {
            self.status = FunctionHandlerStatus::Running;
        }
    }

    /// Records that a call has ended. The count of calls in flight goes
    /// down by one, and stays at zero.
    pub fn call_finished(&mut self)
        requires
            old(self).wf(),
        ensures
            final(self).wf(),
            final(self).lambda == old(self).lambda,
            final(self).running == if old(self).running > 0 {
                old(self).running - 1
            } else {
                0
            },
    {
        if self.running > 0 {
            self.running = self.running - 1;
        }
        if self.running == 0 && self.status == FunctionHandlerStatus::Running {
            self.status = FunctionHandlerStatus::Ready;
        }
    }

    /// Requests a stop of the sandbox. The status becomes, or stays,
    /// [`FunctionHandlerStatus::Stopped`].
    pub fn stop(&mut self) -> (done: Result<(), LambdaError>)
        requires
            old(self).wf(),
        ensures
            final(self).wf(),
            stop_outcome(old(self).lambda, done, final(self).lambda),
            final(self).status == FunctionHandlerStatus::Stopped,
            final(self).running == old(self).running,
    {
        let done = self.lambda.stop();
        self.status = FunctionHandlerStatus::Stopped;
        done
    }
}

/// What a module registry holds: for each module id, its handler.
pub uninterp spec fn module_entries(registry: DashMap<String, Arc<ModuleHandler>>) -> Map<
    Seq<char>,
    ModuleHandler,
>;

/// What a function registry holds: for each function id, its handler.
pub uninterp spec fn function_entries(registry: DashMap<String, FunctionHandler>) -> Map<
    Seq<char>,
    FunctionHandler,
>;

/// `DashMap::new` makes a map that holds nothing.
#[verifier::external_body]
pub(crate) fn modules_new() -> (registry: DashMap<String, Arc<ModuleHandler>>)
    ensures
        module_entries(registry).dom() == Set::<Seq<char>>::empty(),
{
    DashMap::new()
}

/// `DashMap::insert` sets the value at a key, whether or not the key was
/// there. The value that it returns is dropped.
#[verifier::external_body]
pub(crate) fn modules_insert(
    registry: &mut DashMap<String, Arc<ModuleHandler>>,
    id: String,
    handler: Arc<ModuleHandler>,
)
    ensures
        module_entries(*final(registry)) == module_entries(*old(registry)).insert(id@, *handler),
{
    registry.insert(id, handler);
}

/// `DashMap::get` finds the value at a key, if the key is there; the
/// shared handler found is cloned out of the guard that it returns.
#[verifier::external_body]
pub(crate) fn modules_get(
    registry: &DashMap<String, Arc<ModuleHandler>>,
    id: &str,
) -> (found: Option<Arc<ModuleHandler>>)
    ensures
        found is Some <==> module_entries(*registry).contains_key(id@),
        found matches Some(handler) ==> *handler == module_entries(*registry)[id@],
{
    registry.get(id).map(|entry| entry.value().clone())
}

/// `DashMap::remove` takes a key and its value out of the map, if the key
/// is there, and says whether it was.
#[verifier::external_body]
pub(crate) fn modules_remove(
    registry: &mut DashMap<String, Arc<ModuleHandler>>,
    id: &str,
) -> (removed: bool)
    ensures
        removed == module_entries(*old(registry)).contains_key(id@),
        module_entries(*final(registry)) == module_entries(*old(registry)).remove(id@),
{
    registry.remove(id).is_some()
}

/// `DashMap::iter` walks every entry of the map once, in no stated order;
/// each is handed out as its key and the checksum of its module.
#[verifier::external_body]
pub(crate) fn modules_hashes(
    registry: &DashMap<String, Arc<ModuleHandler>>,
) -> (listed: Vec<(String, u32)>)
    ensures
        forall|i: int|
            0 <= i < listed@.len() ==> module_entries(*registry).contains_key(
                (#[trigger] listed@[i]).0@,
            ) && module_entries(*registry)[listed@[i].0@].hash == listed@[i].1,
        forall|id: Seq<char>| #[trigger]
            module_entries(*registry).contains_key(id) ==> exists|i: int|
                0 <= i < listed@.len() && (#[trigger] listed@[i]).0@ == id,
{
    registry.iter().map(|entry| (entry.key().clone(), entry.value().hash)).collect()
}

/// `DashMap::new` makes a map that holds nothing.
#[verifier::external_body]
pub(crate) fn functions_new() -> (registry: DashMap<String, FunctionHandler>)
    ensures
        function_entries(registry).dom() == Set::<Seq<char>>::empty(),
{
    DashMap::new()
}

/// `DashMap::contains_key` says whether a key is in the map.
#[verifier::external_body]
pub(crate) fn functions_contains(
    registry: &DashMap<String, FunctionHandler>,
    id: &str,
) -> (present: bool)
    ensures
        present == function_entries(*registry).contains_key(id@),
{
    registry.contains_key(id)
}

/// `DashMap::get` finds the value at a key, if the key is there; the status
/// is copied out of the guard that it returns.
#[verifier::external_body]
pub(crate) fn functions_status(
    registry: &DashMap<String, FunctionHandler>,
    id: &str,
) -> (status: Option<FunctionHandlerStatus>)
    ensures
        status is Some <==> function_entries(*registry).contains_key(id@),
        status matches Some(found) ==> found == function_entries(*registry)[id@].status,
{
    registry.get(id).map(|entry| entry.value().status)
}

/// `DashMap::insert` sets the value at a key, whether or not the key was
/// there. The value that it returns is dropped.
#[verifier::external_body]
pub(crate) fn functions_insert(
    registry: &mut DashMap<String, FunctionHandler>,
    id: String,
    handler: FunctionHandler,
)
    ensures
        function_entries(*final(registry)) == function_entries(*old(registry)).insert(id@, handler),
{
    registry.insert(id, handler);
}

/// `DashMap::remove` takes a key and its value out of the map, if the key
/// is there, and returns the value.
#[verifier::external_body]
pub(crate) fn functions_remove(
    registry: &mut DashMap<String, FunctionHandler>,
    id: &str,
) -> (removed: Option<FunctionHandler>)
    ensures
        removed is Some <==> function_entries(*old(registry)).contains_key(id@),
        removed matches Some(handler) ==> handler == function_entries(*old(registry))[id@],
        function_entries(*final(registry)) == function_entries(*old(registry)).remove(id@),
{
    registry.remove(id).map(|entry| entry.1)
}

} // verus!
