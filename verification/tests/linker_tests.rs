use std::sync::Arc;

use edge_runtime::config::EngineConfig;
use edge_runtime::engine::WasmEngine;
use edge_runtime::error::RuntimeError;
use edge_runtime::linker::{create_instance_runner, register_all, register_logging};
use edge_runtime::store::WorkerContext;

fn engine() -> WasmEngine {
    let config = EngineConfig {
        pooling_allocator: false,
        ..Default::default()
    };
    WasmEngine::new(&config).unwrap()
}

#[test]
fn test_register_logging() {
    let engine = engine();
    let mut linker: wasmtime::Linker<WorkerContext> = wasmtime::Linker::new(engine.inner());

    let result = register_logging(&mut linker);
    assert!(result.is_ok());
}

#[test]
fn test_register_all() {
    let engine = engine();
    let mut linker: wasmtime::Linker<WorkerContext> = wasmtime::Linker::new(engine.inner());

    let result = register_all(&mut linker);
    assert!(result.is_ok());
}

#[test]
fn registering_twice_is_a_configuration_error() {
    let engine = engine();
    let mut linker: wasmtime::Linker<WorkerContext> = wasmtime::Linker::new(engine.inner());
    register_logging(&mut linker).unwrap();
    match register_logging(&mut linker) {
        Err(RuntimeError::InvalidConfig { reason }) => {
            assert!(reason.starts_with("Failed to register log function: "))
        }
        other => panic!("unexpected {other:?}"),
    }
}

#[test]
fn registered_function_is_defined_under_the_guest_names() {
    let engine = engine();
    let mut linker: wasmtime::Linker<WorkerContext> = wasmtime::Linker::new(engine.inner());
    register_all(&mut linker).unwrap();
    let importer = wasmtime::Module::new(
        engine.inner(),
        r#"(module (import "env" "log" (func (param i32 i32 i32))))"#,
    )
    .unwrap();
    assert!(linker.instantiate_pre(&importer).is_ok());
    let wrong_type = wasmtime::Module::new(
        engine.inner(),
        r#"(module (import "env" "log" (func (param i32 i32))))"#,
    )
    .unwrap();
    assert!(linker.instantiate_pre(&wrong_type).is_err());
}

#[test]
fn created_runner_has_the_capabilities_registered() {
    let engine = engine();
    let runner = create_instance_runner(Arc::new(engine.inner().clone())).unwrap();
    let importer = wasmtime::Module::new(
        engine.inner(),
        r#"(module (import "env" "log" (func (param i32 i32 i32))))"#,
    )
    .unwrap();
    assert!(runner.linker().instantiate_pre(&importer).is_ok());
}

#[test]
fn runner_hands_out_its_own_engine_and_linkers() {
    let engine = engine();
    let other = self::engine();
    let mut runner =
        edge_runtime::instance::InstanceRunner::new(Arc::new(engine.inner().clone()));
    assert!(wasmtime::Engine::same(runner.engine(), engine.inner()));
    assert!(!wasmtime::Engine::same(runner.engine(), other.inner()));

    let component = wasmtime::component::Component::new(
        engine.inner(),
        r#"(component (import "host" (func)))"#,
    )
    .unwrap();
    assert!(runner.component_linker().instantiate_pre(&component).is_err());
    runner
        .component_linker_mut()
        .root()
        .func_wrap("host", |_: wasmtime::StoreContextMut<'_, WorkerContext>, (): ()| Ok(()))
        .unwrap();
    assert!(runner.component_linker().instantiate_pre(&component).is_ok());
    assert!(wasmtime::Engine::same(runner.engine(), engine.inner()));
}
