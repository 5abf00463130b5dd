use edge_runtime::config::EngineConfig;
use edge_runtime::engine::{EngineSettings, PoolLimits, WasmEngine};

#[test]
fn test_engine_creation_no_pooling() {
    let config = EngineConfig {
        pooling_allocator: false,
        ..Default::default()
    };
    let engine = WasmEngine::new(&config);

    assert!(engine.is_ok());
    let engine = engine.unwrap();
    assert!(!engine.is_pooling_enabled());
}

#[test]
fn epoch_can_be_incremented() {
    let config = EngineConfig {
        pooling_allocator: false,
        ..Default::default()
    };
    let engine = WasmEngine::new(&config).unwrap();

    engine.increment_epoch();
    engine.increment_epoch();
}

#[test]
fn pooling_engine_reports_pooling() {
    let config = EngineConfig {
        pooling_allocator: true,
        max_instances: 1,
        instance_memory_mb: 1,
        ..Default::default()
    };
    match WasmEngine::new(&config) {
        Ok(engine) => assert!(engine.is_pooling_enabled()),
        Err(e) => assert!(e.to_string().starts_with(
            "Invalid configuration: Failed to create Wasmtime engine: "
        )),
    }
}

#[test]
fn settings_always_meter_fuel_and_support_async() {
    let config = EngineConfig {
        pooling_allocator: false,
        epoch_interruption: false,
        ..Default::default()
    };
    assert_eq!(
        WasmEngine::settings(&config).unwrap(),
        EngineSettings {
            async_support: true,
            consume_fuel: true,
            epoch_interruption: false,
            pool: None,
        }
    );
}

#[test]
fn pool_limits_follow_the_configuration() {
    let config = EngineConfig {
        pooling_allocator: true,
        max_instances: 250,
        instance_memory_mb: 3,
        ..Default::default()
    };
    assert_eq!(
        WasmEngine::settings(&config).unwrap(),
        EngineSettings {
            async_support: true,
            consume_fuel: true,
            epoch_interruption: true,
            pool: Some(PoolLimits {
                component_instances: 250,
                core_instances: 250,
                memories: 250,
                tables: 250,
                max_memory_bytes: 3 * 1024 * 1024,
            }),
        }
    );
    let default_pool = WasmEngine::settings(&EngineConfig::default())
        .unwrap()
        .pool
        .unwrap();
    assert_eq!(default_pool.core_instances, 1000);
    assert_eq!(default_pool.max_memory_bytes, 64 * 1024 * 1024);
}

#[test]
fn engine_keeps_its_configuration() {
    let config = EngineConfig {
        pooling_allocator: false,
        max_instances: 12,
        cache_dir: None,
        ..Default::default()
    };
    let engine = WasmEngine::new(&config).unwrap();
    assert_eq!(engine.config().max_instances, 12);
    assert!(!engine.config().pooling_allocator);
    assert_eq!(engine.config().cache_dir, None);
    let copy = engine.clone();
    assert_eq!(copy.config().max_instances, 12);
}

#[test]
fn engine_built_here_meters_fuel() {
    let config = EngineConfig {
        pooling_allocator: false,
        ..Default::default()
    };
    let engine = WasmEngine::new(&config).unwrap();
    let mut store = wasmtime::Store::new(engine.inner(), ());
    assert!(store.set_fuel(5).is_ok());
    assert_eq!(store.get_fuel().unwrap(), 5);
}

#[test]
fn engine_debug_shows_the_pooling_settings() {
    let config = EngineConfig {
        pooling_allocator: false,
        max_instances: 12,
        ..Default::default()
    };
    let engine = WasmEngine::new(&config).unwrap();

    let debug_str = format!("{engine:?}");
    assert!(debug_str.contains("WasmEngine"));
    assert!(debug_str.contains("pooling_allocator: false"));
    assert!(debug_str.contains("max_instances: 12"));
    assert!(debug_str.contains("instance_memory_mb: 64"));
}
