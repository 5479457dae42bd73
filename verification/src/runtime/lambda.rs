//! The sandbox of one function.
//!
//! A [`Lambda`] holds what every invocation of a function starts from: the
//! compiled component, the memory cap, the one IPv4 address the guest may
//! bind, and the switches of its host interface. It holds no live store:
//! each call to [`Lambda::run`] starts a fresh invocation.

use super::egress::EgressPolicy;
use super::egress::Ipv4Addr;
use super::invocation::Invocation;
use super::invocation::RunStep;
use super::lambda_error::LambdaError;
use super::wasi_flags::dir_views;
use super::wasi_flags::PreopenedDir;
use super::wasi_flags::PreopenedDirView;
use super::wasi_flags::WasiFlags;
use std::sync::atomic::AtomicBool;
use std::sync::atomic::Ordering;
use std::sync::Arc;
use vstd::prelude::*;
use vstd::string::StringExecFns;
use wasmtime::component::Component;

verus! {

/// The least memory a sandbox can be given: 2 MiB.
pub const MIN_MEMORY_SIZE: usize = 2097152;

/// What a running guest is told when its engine's epoch has advanced.
#[derive(Clone, Copy, Debug, PartialEq, Eq, Structural)]
pub enum EpochDirective {
    /// Keep running, after yielding to the scheduler for this many ticks.
    Yield(u64),
    /// Terminate at this point.
    ForceStop,
}

/// The directive for a guest whose sandbox has, or has not, been asked to
/// stop.
pub open spec fn directive_for(stop_requested: bool) -> EpochDirective {
    if stop_requested {
        EpochDirective::ForceStop
    } else {
        EpochDirective::Yield(1)
    }
}

/// Decides what a guest does at an epoch tick: it is stopped where a stop
/// has been requested, and yields for one tick where none has.
pub fn epoch_directive(stop_requested: bool) -> (directive: EpochDirective)
    ensures
        directive == directive_for(stop_requested),
{
    if !stop_requested {
        return EpochDirective::Yield(1);
    }
    EpochDirective::ForceStop
}

/// The error of a guest call that failed: a forced stop where a stop had
/// been requested, a fault of the guest where none had.
pub open spec fn call_failure(stop_requested: bool) -> LambdaError {
    if stop_requested {
        LambdaError::ForceStop
    } else {
        LambdaError::FunctionExecError
    }
}

/// Tells a failed guest call that was stopped on request from one that
/// failed by itself.
pub fn classify_call_failure(stop_requested: bool) -> (error: LambdaError)
    ensures
        error == call_failure(stop_requested),
{
    match stop_requested {
        true => LambdaError::ForceStop,
        false => LambdaError::FunctionExecError,
    }
}

/// The stop request of one sandbox as its invocations see it: a flag
/// shared between the sandbox and every invocation started from it. It is
/// read and written by concurrent tasks, so no contract speaks of its value.
pub struct StopSignal {
    flag: Arc<AtomicBool>,
}

impl StopSignal {
    /// A signal that has not been raised.
    pub fn new() -> StopSignal {
        StopSignal { flag: Arc::new(AtomicBool::new(false)) }
    }

    /// Raises the signal for every holder of it.
    pub fn raise(&self) {
        self.flag.store(true, Ordering::Release);
    }

    /// Whether the signal has been raised by now.
    pub fn is_raised(&self) -> bool {
        self.flag.load(Ordering::Acquire)
    }

    /// Another handle on the same signal.
    pub fn share(&self) -> (shared: StopSignal)
        ensures
            shared == *self,
    {
        StopSignal { flag: self.flag.clone() }
    }

    /// The directive for a guest that has reached an epoch deadline.
    pub fn on_epoch_deadline(&self) -> (directive: EpochDirective)
        ensures
            exists|raised: bool| directive == directive_for(raised),
    {
        let raised = self.is_raised();
        epoch_directive(raised)
    }
}

/// How the host interface of one invocation is to be set up.
pub struct WasiCtxPlan {
    /// The egress check to install, if any.
    pub socket_addr_check: Option<EgressPolicy>,
    /// The directories to open for the guest, in order.
    pub preopened_dirs: Vec<PreopenedDir>,
}

/// A [`WasiCtxPlan`] with its directories as plain values.
pub struct WasiCtxPlanView {
    pub socket_addr_check: Option<EgressPolicy>,
    pub preopened_dirs: Seq<PreopenedDirView>,
}

impl View for WasiCtxPlan {
    type V = WasiCtxPlanView;

    open spec fn view(&self) -> WasiCtxPlanView {
        WasiCtxPlanView {
            socket_addr_check: self.socket_addr_check,
            preopened_dirs: dir_views(self.preopened_dirs@),
        }
    }
}

/// How the store of one invocation is to be set up.
pub struct StorePlan {
    /// The host interface.
    pub wasi: WasiCtxPlan,
    /// The most memory the guest may hold, in bytes.
    pub memory_size: usize,
}

/// A [`StorePlan`] with its directories as plain values.
pub struct StorePlanView {
    pub wasi: WasiCtxPlanView,
    pub memory_size: usize,
}

impl View for StorePlan {
    type V = StorePlanView;

    open spec fn view(&self) -> StorePlanView {
        StorePlanView { wasi: self.wasi@, memory_size: self.memory_size }
    }
}

/// What requesting a stop of a sandbox comes to: it is refused where a
/// stop has been requested before, and granted otherwise; either way a stop
/// has been requested afterwards, and nothing else has changed.
pub open spec fn stop_outcome(
    before: Lambda,
    result: Result<(), LambdaError>,
    after: Lambda,
) -> bool {
    &&& before.stopped() <==> (result matches Err(LambdaError::FunctionNotRunning))
    &&& !before.stopped() <==> result is Ok
    &&& before.stopped() ==> after == before
    &&& after.stopped()
    &&& after.compiled() == before.compiled()
    &&& after.memory_cap() == before.memory_cap()
    &&& after.permitted_ip() == before.permitted_ip()
    &&& after.flags() == before.flags()
    &&& after.signal() == before.signal()
}

/// The sandbox of one function.
pub struct Lambda {
    component: Arc<Component>,
    memory_size: usize,
    tap_ip: Ipv4Addr,
    stop: StopSignal,
    stop_requested: bool,
    wasi_flags: WasiFlags,
}

impl Lambda {
    /// The invariant: the memory cap is at least [`MIN_MEMORY_SIZE`].
    #[verifier::type_invariant]
    pub open spec fn wf(&self) -> bool {
        self.memory_cap() >= MIN_MEMORY_SIZE
    }

    /// The compiled component that invocations instantiate.
    pub closed spec fn compiled(&self) -> Arc<Component> {
        self.component
    }

    /// The most memory a guest may hold, in bytes.
    pub closed spec fn memory_cap(&self) -> usize {
        self.memory_size
    }

    /// The one IPv4 address the guest may bind.
    pub closed spec fn permitted_ip(&self) -> Ipv4Addr {
        self.tap_ip
    }

    /// Whether a stop has been requested.
    pub closed spec fn stopped(&self) -> bool {
        self.stop_requested
    }

    /// The switches of the host interface.
    pub closed spec fn flags(&self) -> WasiFlags {
        self.wasi_flags
    }

    /// The signal that invocations of this sandbox watch.
    pub closed spec fn signal(&self) -> StopSignal {
        self.stop
    }

    /// The egress check that invocations get.
    pub open spec fn planned_check(&self) -> Option<EgressPolicy> {
        if self.flags().checks_egress() {
            Some(EgressPolicy { tap_ip: self.permitted_ip() })
        } else {
            None
        }
    }

    /// The store that invocations get.
    pub open spec fn planned_store(&self) -> StorePlanView {
        StorePlanView {
            wasi: WasiCtxPlanView {
                socket_addr_check: self.planned_check(),
                preopened_dirs: self.flags().preopened(),
            },
            memory_size: self.memory_cap(),
        }
    }

    /// Builds a sandbox. It is refused where `memory_size` is under
    /// [`MIN_MEMORY_SIZE`]; no stop has been requested of a new sandbox.
    pub fn new(
        component: Arc<Component>,
        memory_size: usize,
        tap_ip: Ipv4Addr,
        wasi_flags: WasiFlags,
    ) -> (made: Result<Lambda, LambdaError>)
        ensures
            memory_size < MIN_MEMORY_SIZE <==> (made matches Err(LambdaError::NotEnoughtMemory)),
            memory_size >= MIN_MEMORY_SIZE <==> made is Ok,
            made matches Ok(lambda) ==> {
                &&& lambda.wf()
                &&& lambda.compiled() == component
                &&& lambda.memory_cap() == memory_size
                &&& lambda.permitted_ip() == tap_ip
                &&& lambda.flags() == wasi_flags
                &&& !lambda.stopped()
            },
    {
        if memory_size < 1024 * 1024 * 2 {
            return Err(LambdaError::NotEnoughtMemory);
        }
        let stop = StopSignal::new();
        Ok(Lambda { component, memory_size, tap_ip, stop, stop_requested: false, wasi_flags })
    }

    /// The most memory a guest may hold, in bytes.
    pub fn memory_size(&self) -> (bytes: usize)
        ensures
            bytes == self.memory_cap(),
            bytes >= MIN_MEMORY_SIZE,
    {
        proof {
            use_type_invariant(self);
        }
        self.memory_size
    }

    /// The one IPv4 address the guest may bind.
    pub fn tap_ip(&self) -> (ip: Ipv4Addr)
        ensures
            ip == self.permitted_ip(),
    {
        self.tap_ip
    }

    /// Whether a stop has been requested.
    pub fn stop_requested(&self) -> (requested: bool)
        ensures
            requested == self.stopped(),
    {
        self.stop_requested
    }

    /// The switches of the host interface.
    pub fn wasi_flags(&self) -> (flags: &WasiFlags)
        ensures
            *flags == self.flags(),
    {
        &self.wasi_flags
    }

    /// The compiled component that invocations instantiate.
    pub fn component(&self) -> (component: &Arc<Component>)
        ensures
            *component == self.compiled(),
    {
        &self.component
    }

    /// Requests a stop: the signal is raised and the epoch of the
    /// component's engine advanced, so that a running guest is stopped at
    /// its next yield point. A second request is refused, and a request
    /// once made is never withdrawn.
    pub fn stop(&mut self) -> (done: Result<(), LambdaError>)
        ensures
            final(self).wf(),
            stop_outcome(*old(self), done, *final(self)),
    {
        proof {
            use_type_invariant(&*self);
        }
        if self.stop_requested {
            return Err(LambdaError::FunctionNotRunning);
        }
        self.stop_requested = true;
        self.stop.raise();
        self.component.engine().increment_epoch();
        Ok(())
    }

    /// The egress check of this sandbox: the policy with the permitted
    /// address fixed.
    pub fn gen_check_ip_closure(&self) -> (check: EgressPolicy)
        ensures
            check.tap_ip == self.permitted_ip(),
    {
        EgressPolicy { tap_ip: self.tap_ip }
    }

    /// Plans the host interface of an invocation: the egress check where it
    /// is switched on, and every mapped directory, in order.
    pub fn build_wasi_ctx(&self) -> (plan: WasiCtxPlan)
        ensures
            plan@.socket_addr_check == self.planned_check(),
            plan@.preopened_dirs == self.flags().preopened(),
    {
        let socket_addr_check = match self.wasi_flags.socket_addr_check {
            Some(_) => Some(self.gen_check_ip_closure()),
            None => None,
        };
        let mut preopened_dirs: Vec<PreopenedDir> = Vec::new();
        if let Some(map) = &self.wasi_flags.file_mapper {
            let entries = map.entries();
            let mut i: usize = 0;
            while i < entries.len()
                invariant
                    i <= entries.len(),
                    dir_views(entries@) == map@,
                    dir_views(preopened_dirs@) == map@.take(i as int),
                decreases entries.len() - i,
            {
                preopened_dirs.push(entries[i].duplicate());
                assert(map@.take(i + 1) =~= map@.take(i as int).push(map@[i as int]));
                i += 1;
            }
        }
        WasiCtxPlan { socket_addr_check, preopened_dirs }
    }

    /// Plans the store of an invocation: the given host interface, and the
    /// sandbox's memory cap as the limit.
    pub fn build_store(&self, wasi: WasiCtxPlan) -> (plan: StorePlan)
        ensures
            plan.wasi == wasi,
            plan.memory_size == self.memory_cap(),
    {
        StorePlan { wasi, memory_size: self.memory_size }
    }

    /// Starts an invocation of the guest's entry point on `args`. The
    /// invocation gets a store and host interface of its own, and watches
    /// this sandbox's stop signal.
    pub fn run(&self, args: &str) -> (invocation: Invocation)
        ensures
            invocation.step == RunStep::LinkWasi,
            invocation.args@ == args@,
            invocation.store@ == self.planned_store(),
            invocation.component == self.compiled(),
            invocation.stop == self.signal(),
    {
        let wasi = self.build_wasi_ctx();
        let store = self.build_store(wasi);
        Invocation {
            step: RunStep::LinkWasi,
            args: String::from_str(args),
            store,
            component: self.component.clone(),
            stop: self.stop.share(),
        }
    }
}

} // verus!
