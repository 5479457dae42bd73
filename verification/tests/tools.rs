use limes::runtime::egress::Ipv4Addr;
use limes::runtime::engine_config;
use limes::runtime::EngineSettings;
use limes::runtime::lambda_error::LambdaError;
use limes::runtime::runtime_error::RuntimeError;
use limes::runtime::wasi_flags::WasiFlags;
use limes::runtime::RuntimeBuilder;
use limes::tools::args::build_runtime;
use limes::tools::args::ArgsParser;
use limes::tools::loader::build_engine;
use limes::tools::loader::build_lambda_from_bytes;
use limes::tools::loader::lambda_or_error;
use limes::tools::loader::load_module_from_bytes;

/// The binary form of a component that holds nothing.
const EMPTY_COMPONENT: [u8; 8] = [0x00, 0x61, 0x73, 0x6d, 0x0d, 0x00, 0x01, 0x00];

fn no_args() -> ArgsParser {
    ArgsParser { ip_address: None, port: None, cpus: None, memory: None, func_cap: None }
}

#[test]
fn absent_options_take_their_defaults() {
    assert_eq!(
        no_args().settings(),
        RuntimeBuilder { vcpus: 1, memory: 1024 * 1024 * 100, max_functions: 25 }
    );
}

#[test]
fn given_options_are_taken_as_they_are() {
    let args = ArgsParser {
        ip_address: Some("0.0.0.0".to_string()),
        port: Some(3000),
        cpus: Some(2),
        memory: Some(1024 * 1024 * 10),
        func_cap: Some(5),
    };
    assert_eq!(
        args.settings(),
        RuntimeBuilder { vcpus: 2, memory: 1024 * 1024 * 10, max_functions: 5 }
    );
    let args = ArgsParser { cpus: Some(3), ..no_args() };
    assert_eq!(
        args.settings(),
        RuntimeBuilder { vcpus: 3, memory: 1024 * 1024 * 100, max_functions: 25 }
    );
}

#[test]
fn runtime_is_built_from_the_command_line() {
    let args = ArgsParser { cpus: Some(2), memory: Some(1024 * 1024 * 10), ..no_args() };
    let runtime = build_runtime(&args).unwrap();
    assert_eq!(runtime.vcpus(), 2);
    assert_eq!(runtime.memory(), 1024 * 1024 * 10);
    assert_eq!(runtime.max_functions(), 25);
    assert_eq!(runtime.allocated_functions(), 0);
}

#[test]
fn engine_settings_are_as_asked() {
    assert_eq!(
        engine_config(true, true),
        EngineSettings {
            async_support: true,
            wasm_component_model: true,
            epoch_interruption: true,
            opt_level: wasmtime::OptLevel::SpeedAndSize,
        }
    );
    assert_eq!(
        engine_config(false, true),
        EngineSettings {
            async_support: false,
            wasm_component_model: true,
            epoch_interruption: true,
            opt_level: wasmtime::OptLevel::SpeedAndSize,
        }
    );
    assert_eq!(
        engine_config(true, false),
        EngineSettings {
            async_support: true,
            wasm_component_model: false,
            epoch_interruption: true,
            opt_level: wasmtime::OptLevel::SpeedAndSize,
        }
    );
}

#[test]
fn engine_follows_its_settings() {
    let asynchronous = wasmtime::Engine::new(&engine_config(true, true).config()).unwrap();
    assert!(asynchronous.is_async());
    let synchronous = wasmtime::Engine::new(&engine_config(false, true).config()).unwrap();
    assert!(!synchronous.is_async());
    assert!(build_engine(true, true).unwrap().is_async());
    assert!(!build_engine(false, true).unwrap().is_async());
    // without the component model an engine takes no component
    let plain = build_engine(true, false).unwrap();
    assert_eq!(
        load_module_from_bytes(&plain, &EMPTY_COMPONENT).err(),
        Some(RuntimeError::ComponentBuildError)
    );
}

#[test]
fn engine_is_built_with_either_setting() {
    assert!(build_engine(true, true).is_ok());
    assert!(build_engine(false, true).is_ok());
}

#[test]
fn bytes_are_loaded_as_a_component() {
    let engine = build_engine(true, true).unwrap();
    assert!(load_module_from_bytes(&engine, &EMPTY_COMPONENT).is_ok());
    assert_eq!(
        load_module_from_bytes(&engine, b"(component)").err(),
        Some(RuntimeError::ComponentBuildError)
    );
    assert_eq!(
        load_module_from_bytes(&engine, &EMPTY_COMPONENT[..7]).err(),
        Some(RuntimeError::ComponentBuildError)
    );
}

#[test]
fn lambda_is_built_from_bytes() {
    let ip = Ipv4Addr::new(127, 0, 0, 1);
    let built = build_lambda_from_bytes(&EMPTY_COMPONENT, 1024 * 1024 * 500, ip, WasiFlags::default());
    let lambda = built.ok().unwrap();
    assert_eq!(lambda.memory_size(), 1024 * 1024 * 500);
    assert_eq!(lambda.tap_ip(), ip);
    assert!(!lambda.stop_requested());
}

#[test]
fn lambda_is_not_built_from_bad_bytes_or_too_little_memory() {
    let ip = Ipv4Addr::new(127, 0, 0, 1);
    let built = build_lambda_from_bytes(b"junk", 1024 * 1024 * 500, ip, WasiFlags::default());
    assert_eq!(built.err(), Some(RuntimeError::ComponentBuildError));
    let built = build_lambda_from_bytes(&EMPTY_COMPONENT, 1024, ip, WasiFlags::default());
    assert_eq!(
        built.err(),
        Some(RuntimeError::FunctionInitError("Allocate at least 2Mb of memory".to_string()))
    );
}

#[test]
fn reason_of_a_lambda_that_was_not_made_is_wrapped() {
    let wrapped = lambda_or_error(Err(LambdaError::NotEnoughtMemory));
    assert_eq!(
        wrapped.err(),
        Some(RuntimeError::FunctionInitError("Allocate at least 2Mb of memory".to_string()))
    );
}
