use std::sync::Arc;

use edge_runtime::config::{EngineConfig, ExecutionConfig};
use edge_runtime::error::RuntimeError;
use edge_runtime::instance::{
    ExecutionResult, InstanceRunner, RunnerAction, RunnerEvent, RunnerState, Step,
};
use edge_runtime::linker::register_all;
use edge_runtime::module::CompiledModule;
use edge_runtime::store::{create_store, get_remaining_fuel, LogLevel, WorkerContext};
use edge_runtime::WasmEngine;

type Outcome = Result<ExecutionResult, RuntimeError>;

/// Performs the actions that the run names, one after the other, and hands
/// back what the run decided at its end.
async fn drive(
    runner: &InstanceRunner,
    module: &CompiledModule,
    store: &mut wasmtime::Store<WorkerContext>,
    entry_point: &str,
    timeout_ms: u64,
) -> (Outcome, RunnerState) {
    let mut run = runner.begin(module, store, entry_point, timeout_ms);
    let mut linked = None;
    let mut instance = None;
    let mut entry = None;
    loop {
        let action = run.pending().expect("a run that is not over names an action");
        let event = match action {
            RunnerAction::Link => {
                assert!(!module.is_component());
                match runner.linker().instantiate_pre(module.as_core_module()) {
                    Ok(pre) => {
                        linked = Some(pre);
                        RunnerEvent::from_link(Ok(()))
                    }
                    Err(e) => RunnerEvent::from_link(Err(e)),
                }
            }
            RunnerAction::Instantiate => {
                let pre = linked.take().expect("linked before");
                match pre.instantiate_async(&mut *store).await {
                    Ok(created) => {
                        instance = Some(created);
                        RunnerEvent::from_instantiation(Ok(()))
                    }
                    Err(e) => RunnerEvent::from_instantiation(Err(e)),
                }
            }
            RunnerAction::LocateEntryPoint => {
                let created = instance.expect("instantiated before");
                entry = created
                    .get_typed_func::<(), ()>(&mut *store, run.entry_point())
                    .ok();
                RunnerEvent::from_lookup(entry.is_some())
            }
            RunnerAction::Invoke => {
                let func = entry.take().expect("located before");
                RunnerEvent::from_call(func.call_async(&mut *store, ()).await)
            }
        };
        let remaining = get_remaining_fuel(store);
        match run.advance(store.data_mut(), event, remaining) {
            Step::Next(next) => assert_eq!(run.pending(), Some(next)),
            Step::Done(outcome) => return (outcome, run.state()),
            Step::Rejected => panic!("the driver reported what the run named"),
        }
    }
}

fn execute(
    runner: &InstanceRunner,
    module: &CompiledModule,
    store: &mut wasmtime::Store<WorkerContext>,
    timeout_ms: u64,
) -> (Outcome, RunnerState) {
    let runtime = tokio::runtime::Builder::new_current_thread()
        .build()
        .unwrap();
    runtime.block_on(drive(runner, module, store, "_start", timeout_ms))
}

fn engine(epoch_interruption: bool) -> WasmEngine {
    let engine_config = EngineConfig {
        pooling_allocator: false,
        epoch_interruption,
        ..Default::default()
    };
    WasmEngine::new(&engine_config).unwrap()
}

/// An engine like the library's, except that it reserves no address space
/// beyond what a linear memory holds, so that guests with a memory fit into
/// a small address space.
fn small_memory_engine() -> wasmtime::Engine {
    let mut config = wasmtime::Config::new();
    config.async_support(true);
    config.consume_fuel(true);
    config.static_memory_maximum_size(0);
    config.static_memory_guard_size(0);
    config.dynamic_memory_guard_size(0);
    config.dynamic_memory_reserved_for_growth(0);
    config.guard_before_linear_memory(false);
    wasmtime::Engine::new(&config).unwrap()
}

fn store_with_fuel(
    engine: &wasmtime::Engine,
    request_id: &str,
    fuel: u64,
) -> wasmtime::Store<WorkerContext> {
    let mut store = wasmtime::Store::new(engine, WorkerContext::new(request_id.into()));
    store.set_fuel(fuel).unwrap();
    store
}

const INFINITE_LOOP: &str = r#"
    (module
        (func (export "_start")
            (loop $forever
                (br $forever)
            )
        )
    )
"#;

const BOUNDED_LOOP: &str = r#"
    (module
        (func (export "_start")
            (local $i i32)
            (local.set $i (i32.const 0))
            (block $break
                (loop $continue
                    (local.set $i (i32.add (local.get $i) (i32.const 1)))
                    (br_if $continue (i32.lt_u (local.get $i) (i32.const 100)))
                )
            )
        )
    )
"#;

const LOGGING: &str = r#"
    (module
        (import "env" "log" (func $log (param i32 i32 i32)))
        (memory (export "memory") 1)
        (data (i32.const 0) "Hello from Wasm")

        (func (export "_start")
            (call $log (i32.const 1) (i32.const 0) (i32.const 15))
        )
    )
"#;

#[test]
fn test_basic_execution() {
    let wat = r#"
        (module
            (func (export "_start"))
        )
    "#;

    let engine = engine(false);
    let runner = InstanceRunner::new(Arc::new(engine.inner().clone()));

    let compiled = CompiledModule::from_wat(engine.inner(), wat).unwrap();

    let exec_config = ExecutionConfig::default();
    let mut store = create_store(&engine, &exec_config, "test-basic".into()).unwrap();

    let (result, state) = execute(&runner, &compiled, &mut store, exec_config.timeout_ms);

    assert!(result.unwrap().is_success());
    assert_eq!(state, RunnerState::Completed);
    assert!(store.data().metrics.duration.is_some());
}

#[test]
fn test_fuel_consumption() {
    let engine = engine(false);
    let runner = InstanceRunner::new(Arc::new(engine.inner().clone()));

    let compiled = CompiledModule::from_wat(engine.inner(), BOUNDED_LOOP).unwrap();

    let exec_config = ExecutionConfig {
        max_fuel: 100_000,
        fuel_metering: true,
        ..Default::default()
    };
    let mut store = create_store(&engine, &exec_config, "test-fuel".into()).unwrap();

    let (result, _) = execute(&runner, &compiled, &mut store, exec_config.timeout_ms);

    assert!(result.unwrap().is_success());
    assert!(
        store.data().metrics.fuel_consumed > 0,
        "Expected fuel to be consumed, got 0"
    );
    assert!(store.data().metrics.fuel_consumed < 100_000);
    assert_eq!(
        get_remaining_fuel(&store),
        Some(100_000 - store.data().metrics.fuel_consumed)
    );
}

#[test]
fn test_fuel_exhaustion() {
    let engine = engine(false);
    let runner = InstanceRunner::new(Arc::new(engine.inner().clone()));

    let compiled = CompiledModule::from_wat(engine.inner(), INFINITE_LOOP).unwrap();

    // Very low fuel to trigger exhaustion quickly
    let exec_config = ExecutionConfig {
        max_fuel: 1000,
        fuel_metering: true,
        ..Default::default()
    };
    let mut store = create_store(&engine, &exec_config, "test-exhaustion".into()).unwrap();

    let (result, state) = execute(&runner, &compiled, &mut store, exec_config.timeout_ms);

    assert!(result.is_err());
    assert!(matches!(
        result.unwrap_err(),
        edge_runtime::error::RuntimeError::FuelExhausted
    ));
    assert_eq!(state, RunnerState::ResourceExhausted);
    assert!(store.data().metrics.duration.is_some());
    assert!(store.data().metrics.fuel_consumed > 0);
    assert!(store.data().metrics.fuel_consumed <= 1000);
}

#[test]
fn test_host_function_logging() {
    let engine = small_memory_engine();
    let mut runner = InstanceRunner::new(Arc::new(engine.clone()));

    // Register all host functions
    register_all(runner.linker_mut()).unwrap();

    let compiled = CompiledModule::from_wat(&engine, LOGGING).unwrap();

    let exec_config = ExecutionConfig::default();
    let mut store = store_with_fuel(&engine, "test-logging", exec_config.max_fuel);

    let (result, _) = execute(&runner, &compiled, &mut store, exec_config.timeout_ms);

    assert!(result.unwrap().is_success());

    // Verify log was captured
    let logs = &store.data().logs;
    assert_eq!(logs.len(), 1, "Expected 1 log entry, got {}", logs.len());
    assert_eq!(logs[0].message, "Hello from Wasm");
    assert_eq!(logs[0].level, LogLevel::Info);
}

#[test]
fn test_trap_unreachable() {
    let wat = r#"
        (module
            (func (export "_start")
                unreachable
            )
        )
    "#;

    let engine = engine(false);
    let runner = InstanceRunner::new(Arc::new(engine.inner().clone()));

    let compiled = CompiledModule::from_wat(engine.inner(), wat).unwrap();

    let exec_config = ExecutionConfig::default();
    let mut store = create_store(&engine, &exec_config, "test-trap".into()).unwrap();

    let (result, state) = execute(&runner, &compiled, &mut store, exec_config.timeout_ms);
    let result = result.unwrap();

    assert!(result.is_trap(), "Expected trap, got {result:?}");
    assert_eq!(state, RunnerState::Trapped);
    if let ExecutionResult::Trap { message, code } = result {
        assert!(!message.is_empty());
        // Wasmtime returns "UnreachableCodeReached" as the trap code
        assert!(
            message.contains("wasm backtrace") || code.as_deref() == Some("UnreachableCodeReached"),
            "Expected wasm trap, got message: {message} (code: {code:?})"
        );
    }
    assert!(store.data().metrics.duration.is_some());
}

#[test]
fn test_multiple_logs() {
    let wat = r#"
        (module
            (import "env" "log" (func $log (param i32 i32 i32)))
            (memory (export "memory") 1)
            (data (i32.const 0) "First message")
            (data (i32.const 20) "Second message")
            (data (i32.const 40) "Error message")

            (func (export "_start")
                ;; Log at Info level (1)
                (call $log (i32.const 1) (i32.const 0) (i32.const 13))
                ;; Log at Debug level (0)
                (call $log (i32.const 0) (i32.const 20) (i32.const 14))
                ;; Log at Error level (3)
                (call $log (i32.const 3) (i32.const 40) (i32.const 13))
            )
        )
    "#;

    let engine = small_memory_engine();
    let mut runner = InstanceRunner::new(Arc::new(engine.clone()));

    // Register all host functions
    register_all(runner.linker_mut()).unwrap();

    let compiled = CompiledModule::from_wat(&engine, wat).unwrap();

    let exec_config = ExecutionConfig::default();
    let mut store = store_with_fuel(&engine, "test-multi-log", exec_config.max_fuel);

    let (result, _) = execute(&runner, &compiled, &mut store, exec_config.timeout_ms);

    assert!(result.unwrap().is_success());

    let logs = &store.data().logs;
    assert_eq!(logs.len(), 3);

    assert_eq!(logs[0].message, "First message");
    assert_eq!(logs[0].level, LogLevel::Info);

    assert_eq!(logs[1].message, "Second message");
    assert_eq!(logs[1].level, LogLevel::Debug);

    assert_eq!(logs[2].message, "Error message");
    assert_eq!(logs[2].level, LogLevel::Error);
}

#[test]
fn reached_epoch_deadline_reports_a_timeout() {
    let engine = engine(true);
    let runner = InstanceRunner::new(Arc::new(engine.inner().clone()));
    let compiled = CompiledModule::from_wat(engine.inner(), INFINITE_LOOP).unwrap();

    let exec_config = ExecutionConfig {
        max_fuel: 1_000_000_000,
        timeout_ms: 3,
        ..Default::default()
    };
    let mut store = create_store(&engine, &exec_config, "test-deadline".into()).unwrap();
    engine.increment_epoch();
    engine.increment_epoch();
    engine.increment_epoch();

    let (result, state) = execute(&runner, &compiled, &mut store, exec_config.timeout_ms);

    match result {
        Err(RuntimeError::ExecutionTimeout { duration_ms }) => assert_eq!(duration_ms, 3),
        other => panic!("unexpected {other:?}"),
    }
    assert_eq!(state, RunnerState::ResourceExhausted);
    assert!(store.data().metrics.duration.is_some());
}

#[test]
fn deadline_that_is_not_reached_lets_the_guest_finish() {
    let engine = engine(true);
    let runner = InstanceRunner::new(Arc::new(engine.inner().clone()));
    let compiled = CompiledModule::from_wat(engine.inner(), BOUNDED_LOOP).unwrap();

    let exec_config = ExecutionConfig {
        timeout_ms: 3,
        ..Default::default()
    };
    let mut store = create_store(&engine, &exec_config, "test-in-time".into()).unwrap();
    engine.increment_epoch();
    engine.increment_epoch();

    let (result, state) = execute(&runner, &compiled, &mut store, exec_config.timeout_ms);
    assert!(result.unwrap().is_success());
    assert_eq!(state, RunnerState::Completed);
}

#[test]
fn missing_import_is_a_link_error() {
    let engine = engine(false);
    let runner = InstanceRunner::new(Arc::new(engine.inner().clone()));
    let compiled = CompiledModule::from_wat(engine.inner(), LOGGING).unwrap();

    let exec_config = ExecutionConfig::default();
    let mut store = create_store(&engine, &exec_config, "test-link".into()).unwrap();

    let (result, state) = execute(&runner, &compiled, &mut store, exec_config.timeout_ms);
    match result {
        Err(RuntimeError::LinkError { reason }) => assert!(reason.contains("log")),
        other => panic!("unexpected {other:?}"),
    }
    assert_eq!(state, RunnerState::Failed);
    assert!(store.data().metrics.duration.is_some());
    assert_eq!(store.data().metrics.fuel_consumed, 0);
}

#[test]
fn missing_entry_point_is_reported_by_name() {
    let engine = engine(false);
    let runner = InstanceRunner::new(Arc::new(engine.inner().clone()));
    let exec_config = ExecutionConfig::default();

    let no_export = CompiledModule::from_wat(engine.inner(), "(module (func))").unwrap();
    let mut store = create_store(&engine, &exec_config, "test-entry".into()).unwrap();
    let (result, state) = execute(&runner, &no_export, &mut store, exec_config.timeout_ms);
    match result {
        Err(RuntimeError::EntryPointNotFound { name }) => assert_eq!(name, "_start"),
        other => panic!("unexpected {other:?}"),
    }
    assert_eq!(state, RunnerState::Failed);
    assert!(store.data().metrics.duration.is_some());

    let wrong_signature = CompiledModule::from_wat(
        engine.inner(),
        r#"(module (func (export "_start") (param i32)))"#,
    )
    .unwrap();
    let mut store = create_store(&engine, &exec_config, "test-signature".into()).unwrap();
    let (result, _) = execute(&runner, &wrong_signature, &mut store, exec_config.timeout_ms);
    assert!(matches!(
        result,
        Err(RuntimeError::EntryPointNotFound { .. })
    ));
}

#[test]
fn guest_ranges_outside_memory_leave_no_log() {
    let wat = r#"
        (module
            (import "env" "log" (func $log (param i32 i32 i32)))
            (memory (export "memory") 1)
            (data (i32.const 65530) "border")

            (func (export "_start")
                (call $log (i32.const 1) (i32.const -1) (i32.const 4))
                (call $log (i32.const 1) (i32.const 0) (i32.const -4))
                (call $log (i32.const 1) (i32.const 65530) (i32.const 7))
                (call $log (i32.const 1) (i32.const 65536) (i32.const 1))
                (call $log (i32.const 1) (i32.const 2147483647) (i32.const 2147483647))
                (call $log (i32.const 2) (i32.const 65530) (i32.const 6))
                (call $log (i32.const 42) (i32.const 65536) (i32.const 0))
            )
        )
    "#;
    let engine = small_memory_engine();
    let mut runner = InstanceRunner::new(Arc::new(engine.clone()));
    register_all(runner.linker_mut()).unwrap();
    let compiled = CompiledModule::from_wat(&engine, wat).unwrap();
    let exec_config = ExecutionConfig::default();
    let mut store = store_with_fuel(&engine, "test-bounds", exec_config.max_fuel);

    let (result, _) = execute(&runner, &compiled, &mut store, exec_config.timeout_ms);
    assert!(result.unwrap().is_success());

    let logs = &store.data().logs;
    assert_eq!(logs.len(), 2);
    assert_eq!(logs[0].message, "border");
    assert_eq!(logs[0].level, LogLevel::Warn);
    assert_eq!(logs[1].message, "");
    assert_eq!(logs[1].level, LogLevel::Info);
}

#[test]
fn guest_without_memory_export_leaves_no_log() {
    let wat = r#"
        (module
            (import "env" "log" (func $log (param i32 i32 i32)))
            (func (export "_start")
                (call $log (i32.const 1) (i32.const 0) (i32.const 4))
            )
        )
    "#;
    let engine = engine(false);
    let mut runner = InstanceRunner::new(Arc::new(engine.inner().clone()));
    register_all(runner.linker_mut()).unwrap();
    let compiled = CompiledModule::from_wat(engine.inner(), wat).unwrap();
    let exec_config = ExecutionConfig::default();
    let mut store = create_store(&engine, &exec_config, "test-no-memory".into()).unwrap();

    let (result, _) = execute(&runner, &compiled, &mut store, exec_config.timeout_ms);
    assert!(result.unwrap().is_success());
    assert!(store.data().logs.is_empty());
}

#[test]
fn concurrent_executions_of_one_artifact_are_isolated() {
    let wat = r#"
        (module
            (import "env" "log" (func $log (param i32 i32 i32)))
            (memory (export "memory") 1)
            (data (i32.const 0) "visit ")
            (global $visits (mut i32) (i32.const 0))

            (func (export "_start")
                (global.set $visits (i32.add (global.get $visits) (i32.const 1)))
                (i32.store8 (i32.const 6) (i32.add (i32.const 48) (global.get $visits)))
                (call $log (i32.const 1) (i32.const 0) (i32.const 7))
            )
        )
    "#;
    let engine = small_memory_engine();
    let mut runner = InstanceRunner::new(Arc::new(engine.clone()));
    register_all(runner.linker_mut()).unwrap();
    let runner = Arc::new(runner);
    let compiled = Arc::new(CompiledModule::from_wat(&engine, wat).unwrap());

    let runtime = tokio::runtime::Builder::new_multi_thread()
        .worker_threads(2)
        .build()
        .unwrap();
    let mut handles = Vec::new();
    for (request_id, max_fuel) in [("first", 10_000u64), ("second", 20_000u64)] {
        let mut store = store_with_fuel(&engine, request_id, max_fuel);
        let runner = runner.clone();
        let compiled = compiled.clone();
        handles.push(runtime.spawn(async move {
            let (result, _) = drive(&runner, &compiled, &mut store, "_start", 100).await;
            (result, store)
        }));
    }
    let mut finished = Vec::new();
    for handle in handles {
        finished.push(runtime.block_on(handle).unwrap());
    }

    let (first_result, first) = &finished[0];
    let (second_result, second) = &finished[1];
    assert!(first_result.as_ref().unwrap().is_success());
    assert!(second_result.as_ref().unwrap().is_success());

    assert_eq!(first.data().request_id, "first");
    assert_eq!(second.data().request_id, "second");
    assert_eq!(first.data().logs.len(), 1);
    assert_eq!(second.data().logs.len(), 1);
    assert_eq!(first.data().logs[0].message, "visit 1");
    assert_eq!(second.data().logs[0].message, "visit 1");

    let used = first.data().metrics.fuel_consumed;
    assert!(used > 0);
    assert_eq!(second.data().metrics.fuel_consumed, used);
    assert_eq!(get_remaining_fuel(first), Some(10_000 - used));
    assert_eq!(get_remaining_fuel(second), Some(20_000 - used));
}
