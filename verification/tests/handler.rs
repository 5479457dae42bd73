use limes::runtime::component_or_error;
use limes::runtime::egress::Ipv4Addr;
use limes::runtime::engine_or_error;
use limes::runtime::lambda::Lambda;
use limes::runtime::lambda_error::LambdaError;
use limes::runtime::runtime_error::RuntimeError;
use limes::runtime::wasi_flags::WasiFlags;
use limes::runtime::FunctionHandler;
use limes::runtime::FunctionHandlerStatus;
use limes::runtime::Runtime;
use limes::tools::loader::build_engine;
use limes::tools::loader::load_module_from_bytes;

/// The binary form of a component that holds nothing.
const EMPTY_COMPONENT: [u8; 8] = [0x00, 0x61, 0x73, 0x6d, 0x0d, 0x00, 0x01, 0x00];

fn lambda() -> Lambda {
    let engine = build_engine(true, true).unwrap();
    let component = load_module_from_bytes(&engine, &EMPTY_COMPONENT).unwrap();
    Lambda::new(component, 1024 * 1024 * 2, Ipv4Addr::new(127, 0, 0, 1), WasiFlags::default())
        .ok()
        .unwrap()
}

#[test]
fn new_handler_is_ready_with_no_call_in_flight() {
    let handler = FunctionHandler::new(lambda());
    assert_eq!(handler.status, FunctionHandlerStatus::Ready);
    assert_eq!(handler.running, 0);
}

#[test]
fn handler_of_a_stopped_lambda_is_stopped() {
    let mut lambda = lambda();
    assert_eq!(lambda.stop(), Ok(()));
    let handler = FunctionHandler::new(lambda);
    assert_eq!(handler.status, FunctionHandlerStatus::Stopped);
    assert_eq!(handler.running, 0);
}

#[test]
fn handler_counts_calls_in_flight() {
    let mut handler = FunctionHandler::new(lambda());
    handler.call_started();
    assert_eq!((handler.status, handler.running), (FunctionHandlerStatus::Running, 1));
    handler.call_started();
    assert_eq!((handler.status, handler.running), (FunctionHandlerStatus::Running, 2));
    handler.call_finished();
    assert_eq!((handler.status, handler.running), (FunctionHandlerStatus::Running, 1));
    handler.call_finished();
    assert_eq!((handler.status, handler.running), (FunctionHandlerStatus::Ready, 0));
    handler.call_finished();
    assert_eq!((handler.status, handler.running), (FunctionHandlerStatus::Ready, 0));
}

#[test]
fn count_of_calls_stays_where_it_cannot_go_up() {
    let mut handler = FunctionHandler {
        lambda: lambda(),
        status: FunctionHandlerStatus::Running,
        running: usize::MAX,
    };
    handler.call_started();
    assert_eq!((handler.status, handler.running), (FunctionHandlerStatus::Running, usize::MAX));
    handler.call_finished();
    assert_eq!((handler.status, handler.running), (FunctionHandlerStatus::Running, usize::MAX - 1));
}

#[test]
fn stopped_handler_stays_stopped() {
    let mut handler = FunctionHandler::new(lambda());
    handler.call_started();
    assert_eq!(handler.stop(), Ok(()));
    assert_eq!((handler.status, handler.running), (FunctionHandlerStatus::Stopped, 1));
    assert!(handler.lambda.stop_requested());
    assert_eq!(handler.stop(), Err(LambdaError::FunctionNotRunning));
    handler.call_started();
    assert_eq!((handler.status, handler.running), (FunctionHandlerStatus::Stopped, 2));
    handler.call_finished();
    handler.call_finished();
    assert_eq!((handler.status, handler.running), (FunctionHandlerStatus::Stopped, 0));
}

#[test]
fn failed_attempts_become_errors_of_the_runtime() {
    assert_eq!(
        engine_or_error(Err(anyhow::Error::msg("bad settings"))).err(),
        Some(RuntimeError::EngineInitError)
    );
    assert_eq!(
        component_or_error(Err(anyhow::Error::msg("bad bytes"))).err(),
        Some(RuntimeError::ComponentBuildError)
    );
    let engine = build_engine(true, true).unwrap();
    assert!(engine_or_error(Ok(engine.clone())).is_ok());
    let compiled = wasmtime::component::Component::from_binary(&engine, &EMPTY_COMPONENT);
    assert!(component_or_error(compiled).is_ok());
}

#[test]
fn engines_are_built_up_front() {
    let builder = Runtime::new();
    let config = wasmtime::Config::new();
    assert_eq!(builder.gen_engines(0, &config).ok().unwrap().len(), 0);
    assert_eq!(builder.gen_engines(3, &config).ok().unwrap().len(), 3);
}
