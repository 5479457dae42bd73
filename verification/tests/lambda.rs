use limes::runtime::egress::EgressPolicy;
use limes::runtime::egress::Ipv4Addr;
use limes::runtime::invocation::step_error;
use limes::runtime::invocation::Invocation;
use limes::runtime::invocation::RunProgress;
use limes::runtime::invocation::RunStep;
use limes::runtime::lambda::classify_call_failure;
use limes::runtime::lambda::epoch_directive;
use limes::runtime::lambda::EpochDirective;
use limes::runtime::lambda::Lambda;
use limes::runtime::lambda::StopSignal;
use limes::runtime::lambda::MIN_MEMORY_SIZE;
use limes::runtime::lambda_error::LambdaError;
use limes::runtime::wasi_flags::DirPerms;
use limes::runtime::wasi_flags::FileMapper;
use limes::runtime::wasi_flags::FilePerms;
use limes::runtime::wasi_flags::WasiFlags;
use limes::tools::loader::build_engine;
use limes::tools::loader::load_module_from_bytes;
use std::sync::Arc;
use wasmtime::component::Component;

/// The binary form of a component that holds nothing.
const EMPTY_COMPONENT: [u8; 8] = [0x00, 0x61, 0x73, 0x6d, 0x0d, 0x00, 0x01, 0x00];

fn component() -> Arc<Component> {
    let engine = build_engine(true, true).unwrap();
    load_module_from_bytes(&engine, &EMPTY_COMPONENT).unwrap()
}

fn lambda_with(flags: WasiFlags) -> Lambda {
    match Lambda::new(component(), 1024 * 1024 * 2, Ipv4Addr::new(127, 0, 0, 1), flags) {
        Ok(lambda) => lambda,
        Err(e) => panic!("{}", e.to_string()),
    }
}

fn lambda() -> Lambda {
    lambda_with(WasiFlags::default())
}

fn pending(progress: RunProgress) -> Invocation {
    match progress {
        RunProgress::Pending(invocation) => invocation,
        RunProgress::Finished(_) => panic!("the invocation has ended"),
    }
}

fn finished(progress: RunProgress) -> Result<String, LambdaError> {
    match progress {
        RunProgress::Finished(outcome) => outcome,
        RunProgress::Pending(_) => panic!("the invocation has not ended"),
    }
}

fn advance_to(mut invocation: Invocation, step: RunStep) -> Invocation {
    while invocation.step != step {
        invocation = pending(invocation.resume(Ok(String::new())));
    }
    invocation
}

#[test]
fn min_memory_size_is_two_mebibytes() {
    assert_eq!(MIN_MEMORY_SIZE, 2 * 1024 * 1024);
}

#[test]
fn lambda_needs_two_mebibytes() {
    let ip = Ipv4Addr::new(127, 0, 0, 1);
    let too_small = Lambda::new(component(), 1024 * 1024 * 2 - 1, ip, WasiFlags::default());
    assert_eq!(too_small.err(), Some(LambdaError::NotEnoughtMemory));
    let none = Lambda::new(component(), 0, ip, WasiFlags::default());
    assert_eq!(none.err(), Some(LambdaError::NotEnoughtMemory));
    let enough = Lambda::new(component(), 1024 * 1024 * 2, ip, WasiFlags::default());
    assert!(enough.is_ok());
}

#[test]
fn lambda_keeps_what_it_is_given() {
    let ip = Ipv4Addr::new(10, 1, 2, 3);
    let shared = component();
    let made = Lambda::new(shared.clone(), 1024 * 1024 * 5, ip, WasiFlags::new(None, None));
    let lambda = made.ok().unwrap();
    assert_eq!(lambda.memory_size(), 1024 * 1024 * 5);
    assert_eq!(lambda.tap_ip(), ip);
    assert!(!lambda.stop_requested());
    assert_eq!(lambda.wasi_flags().socket_addr_check, None);
    assert!(lambda.wasi_flags().file_mapper.is_none());
    assert!(Arc::ptr_eq(lambda.component(), &shared));
}

#[test]
fn stop_is_granted_once() {
    let mut lambda = lambda();
    assert_eq!(lambda.stop(), Ok(()));
    assert!(lambda.stop_requested());
    assert_eq!(lambda.stop(), Err(LambdaError::FunctionNotRunning));
    assert!(lambda.stop_requested());
    assert_eq!(lambda.stop(), Err(LambdaError::FunctionNotRunning));
}

#[test]
fn epoch_tick_yields_until_a_stop_is_requested() {
    assert_eq!(epoch_directive(false), EpochDirective::Yield(1));
    assert_eq!(epoch_directive(true), EpochDirective::ForceStop);
}

#[test]
fn failed_call_is_told_apart_by_the_stop_request() {
    assert_eq!(classify_call_failure(false), LambdaError::FunctionExecError);
    assert_eq!(classify_call_failure(true), LambdaError::ForceStop);
}

#[test]
fn signal_is_seen_by_every_holder() {
    let signal = StopSignal::new();
    let shared = signal.share();
    assert!(!signal.is_raised());
    assert!(!shared.is_raised());
    assert_eq!(shared.on_epoch_deadline(), EpochDirective::Yield(1));
    signal.raise();
    assert!(signal.is_raised());
    assert!(shared.is_raised());
    assert_eq!(shared.on_epoch_deadline(), EpochDirective::ForceStop);
}

#[test]
fn egress_check_is_bound_to_the_permitted_ip() {
    let lambda = lambda();
    assert_eq!(
        lambda.gen_check_ip_closure(),
        EgressPolicy { tap_ip: Ipv4Addr::new(127, 0, 0, 1) }
    );
}

#[test]
fn wasi_ctx_plan_follows_the_flags() {
    let plan = lambda().build_wasi_ctx();
    assert_eq!(plan.socket_addr_check, Some(EgressPolicy { tap_ip: Ipv4Addr::new(127, 0, 0, 1) }));
    assert!(plan.preopened_dirs.is_empty());

    let plan = lambda_with(WasiFlags::new(None, None)).build_wasi_ctx();
    assert_eq!(plan.socket_addr_check, None);
    assert!(plan.preopened_dirs.is_empty());

    let mut mapper = FileMapper::new();
    mapper.insert(
        "/host/images".to_string(),
        ("./".to_string(), DirPerms::all(), FilePerms::all()),
    );
    mapper.insert(
        "/host/data".to_string(),
        ("/data".to_string(), DirPerms { read: true, mutate: false }, FilePerms::empty()),
    );
    let plan = lambda_with(WasiFlags::new(Some(()), Some(mapper))).build_wasi_ctx();
    assert!(plan.socket_addr_check.is_some());
    assert_eq!(plan.preopened_dirs.len(), 2);
    assert_eq!(plan.preopened_dirs[0].host_path, "/host/images");
    assert_eq!(plan.preopened_dirs[0].guest_path, "./");
    assert_eq!(plan.preopened_dirs[0].dir_perms, DirPerms::all());
    assert_eq!(plan.preopened_dirs[0].file_perms, FilePerms::all());
    assert_eq!(plan.preopened_dirs[1].host_path, "/host/data");
    assert_eq!(plan.preopened_dirs[1].guest_path, "/data");
    assert_eq!(plan.preopened_dirs[1].dir_perms, DirPerms { read: true, mutate: false });
    assert_eq!(plan.preopened_dirs[1].file_perms, FilePerms::empty());
}

#[test]
fn store_plan_is_limited_to_the_memory_cap() {
    let lambda = lambda();
    let plan = lambda.build_store(lambda.build_wasi_ctx());
    assert_eq!(plan.memory_size, 1024 * 1024 * 2);
    assert!(plan.wasi.socket_addr_check.is_some());
}

#[test]
fn run_starts_at_the_linker() {
    let lambda = lambda();
    let invocation = lambda.run("1,2,3,4,5");
    assert_eq!(invocation.step, RunStep::LinkWasi);
    assert_eq!(invocation.args, "1,2,3,4,5");
    assert_eq!(invocation.store.memory_size, 1024 * 1024 * 2);
    assert_eq!(
        invocation.store.wasi.socket_addr_check,
        Some(EgressPolicy { tap_ip: Ipv4Addr::new(127, 0, 0, 1) })
    );
    assert!(Arc::ptr_eq(&invocation.component, lambda.component()));
    assert!(!invocation.stop.is_raised());
}

#[test]
fn steps_follow_one_another() {
    let invocation = lambda().run("");
    let invocation = pending(invocation.resume(Ok(String::new())));
    assert_eq!(invocation.step, RunStep::Instantiate);
    let invocation = pending(invocation.resume(Ok(String::new())));
    assert_eq!(invocation.step, RunStep::FindInterface);
    assert_eq!(invocation.export_name(), "component:run/run");
    let invocation = pending(invocation.resume(Ok(String::new())));
    assert_eq!(invocation.step, RunStep::FindFunction);
    assert_eq!(invocation.export_name(), "run");
    let invocation = pending(invocation.resume(Ok(String::new())));
    assert_eq!(invocation.step, RunStep::TypeFunction);
    let invocation = pending(invocation.resume(Ok(String::new())));
    assert_eq!(invocation.step, RunStep::Call);
    assert_eq!(invocation.args, "");
}

#[test]
fn call_returns_what_the_guest_produced() {
    let invocation = advance_to(lambda().run("f,e,d,c,b,a"), RunStep::Call);
    assert_eq!(invocation.args, "f,e,d,c,b,a");
    let outcome = finished(invocation.resume(Ok("[a,b,c,d,e,f]".to_string())));
    assert_eq!(outcome, Ok("[a,b,c,d,e,f]".to_string()));
}

#[test]
fn output_of_earlier_steps_is_not_the_result() {
    let invocation = lambda().run("x");
    let invocation = pending(invocation.resume(Ok("linker".to_string())));
    let invocation = advance_to(invocation, RunStep::Call);
    assert_eq!(finished(invocation.resume(Ok("15".to_string()))), Ok("15".to_string()));
}

#[test]
fn failed_linker_ends_the_invocation() {
    let invocation = lambda().run("");
    let outcome = finished(invocation.resume(Err("defined twice".to_string())));
    assert_eq!(outcome, Err(LambdaError::WasiAsyncLinkerError("defined twice".to_string())));
}

#[test]
fn failed_instantiation_ends_the_invocation() {
    let invocation = advance_to(lambda().run(""), RunStep::Instantiate);
    let outcome = finished(invocation.resume(Err("unknown import".to_string())));
    assert_eq!(outcome, Err(LambdaError::InstanceBuilderError("unknown import".to_string())));
}

#[test]
fn missing_interface_ends_the_invocation() {
    let invocation = advance_to(lambda().run(""), RunStep::FindInterface);
    let outcome = finished(invocation.resume(Err("not found".to_string())));
    assert_eq!(outcome, Err(LambdaError::FunctionInterfaceError));
}

#[test]
fn missing_function_ends_the_invocation() {
    let invocation = advance_to(lambda().run(""), RunStep::FindFunction);
    let outcome = finished(invocation.resume(Err("not found".to_string())));
    assert_eq!(outcome, Err(LambdaError::FunctionInterfaceRetrievError));
}

#[test]
fn mistyped_function_ends_the_invocation() {
    let invocation = advance_to(lambda().run(""), RunStep::TypeFunction);
    let outcome = finished(invocation.resume(Err("expected string".to_string())));
    assert_eq!(outcome, Err(LambdaError::FunctionRetrievError("expected string".to_string())));
}

#[test]
fn failed_call_without_stop_is_a_guest_fault() {
    let invocation = advance_to(lambda().run("TCP,192.168.2.3:50300"), RunStep::Call);
    let outcome = finished(invocation.resume(Err("trap".to_string())));
    assert_eq!(outcome, Err(LambdaError::FunctionExecError));
}

#[test]
fn failed_call_after_stop_is_a_forced_stop() {
    let mut lambda = lambda();
    let invocation = advance_to(lambda.run(""), RunStep::Call);
    assert_eq!(lambda.stop(), Ok(()));
    assert!(invocation.stop.is_raised());
    assert_eq!(invocation.stop.on_epoch_deadline(), EpochDirective::ForceStop);
    let outcome = finished(invocation.resume(Err("epoch deadline".to_string())));
    assert_eq!(outcome, Err(LambdaError::ForceStop));
}

#[test]
fn stop_matters_at_the_call_only() {
    let mut lambda = lambda();
    let invocation = advance_to(lambda.run(""), RunStep::Instantiate);
    assert_eq!(lambda.stop(), Ok(()));
    let outcome = finished(invocation.resume(Err("no".to_string())));
    assert_eq!(outcome, Err(LambdaError::InstanceBuilderError("no".to_string())));
}

#[test]
fn call_that_succeeds_after_stop_still_returns_its_output() {
    let mut lambda = lambda();
    let invocation = advance_to(lambda.run(""), RunStep::Call);
    assert_eq!(lambda.stop(), Ok(()));
    assert_eq!(finished(invocation.resume(Ok("done".to_string()))), Ok("done".to_string()));
}

#[test]
fn two_invocations_one_stop() {
    let mut first = lambda();
    let second = lambda();
    let first_call = advance_to(first.run("f,e,d,c,b,a"), RunStep::Call);
    let second_call = advance_to(second.run("e,d,c,b,a"), RunStep::Call);
    assert_eq!(first.stop(), Ok(()));
    assert_eq!(first_call.stop.on_epoch_deadline(), EpochDirective::ForceStop);
    assert_eq!(second_call.stop.on_epoch_deadline(), EpochDirective::Yield(1));
    assert_eq!(
        finished(first_call.resume(Err("interrupted".to_string()))),
        Err(LambdaError::ForceStop)
    );
    assert_eq!(
        finished(second_call.resume(Ok("[a,b,c,d,e]".to_string()))),
        Ok("[a,b,c,d,e]".to_string())
    );
}

#[test]
fn step_error_for_each_step() {
    let reason = || "why".to_string();
    assert_eq!(
        step_error(RunStep::LinkWasi, reason(), true),
        LambdaError::WasiAsyncLinkerError(reason())
    );
    assert_eq!(
        step_error(RunStep::Instantiate, reason(), true),
        LambdaError::InstanceBuilderError(reason())
    );
    assert_eq!(
        step_error(RunStep::FindInterface, reason(), true),
        LambdaError::FunctionInterfaceError
    );
    assert_eq!(
        step_error(RunStep::FindFunction, reason(), true),
        LambdaError::FunctionInterfaceRetrievError
    );
    assert_eq!(
        step_error(RunStep::TypeFunction, reason(), true),
        LambdaError::FunctionRetrievError(reason())
    );
    assert_eq!(step_error(RunStep::Call, reason(), true), LambdaError::ForceStop);
    assert_eq!(step_error(RunStep::Call, reason(), false), LambdaError::FunctionExecError);
}
