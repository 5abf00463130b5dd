use edge_runtime::config::{ExecutionConfig, RuntimeConfig};
use edge_runtime::config_file::{AdminConfig, ConfigFile, ConfigFileError};
use edge_runtime::defaults;

#[test]
fn test_default_config() {
    let config = RuntimeConfig::default();

    assert!(config.engine.pooling_allocator);
    assert_eq!(config.engine.max_instances, 1000);
    assert_eq!(config.engine.instance_memory_mb, 64);
    assert!(config.engine.cache_compiled_modules);
    assert!(config.engine.epoch_interruption);

    assert_eq!(config.execution.max_fuel, 10_000_000);
    assert_eq!(config.execution.timeout_ms, 100);
    assert_eq!(config.execution.max_memory_mb, 128);
    assert!(config.execution.fuel_metering);
}

#[test]
fn test_execution_timeout() {
    let config = ExecutionConfig {
        timeout_ms: 500,
        ..Default::default()
    };

    assert_eq!(config.timeout(), std::time::Duration::from_millis(500));
}

#[test]
fn test_default_config_file() {
    let config = ConfigFile::default();

    assert_eq!(config.server.bind_addr, "0.0.0.0:8080");
    assert_eq!(config.server.request_timeout_secs, 30);
    assert!(config.server.graceful_shutdown);
    assert!(!config.admin.enabled);
    assert!(config.admin.token.is_none());
    assert_eq!(config.admin.prefix, "/admin");
    assert!(config.modules.is_empty());
}

#[test]
fn test_admin_config_is_configured() {
    let mut admin = AdminConfig::default();
    assert!(!admin.is_configured());

    admin.enabled = true;
    assert!(!admin.is_configured());

    admin.token = Some("token".to_string());
    assert!(admin.is_configured());
}

#[test]
fn default_engine_config_has_cache_dir() {
    let config = RuntimeConfig::default();
    assert_eq!(config.engine.cache_dir, Some("./cache".to_string()));
}

#[test]
fn engine_config_clone_keeps_every_field() {
    let mut config = RuntimeConfig::default();
    config.engine.max_instances = 7;
    config.engine.cache_dir = Some("/tmp/x".to_string());
    config.execution.max_fuel = 42;
    let copy = config.clone();
    assert_eq!(copy.engine.max_instances, 7);
    assert_eq!(copy.engine.cache_dir, Some("/tmp/x".to_string()));
    assert_eq!(copy.engine.instance_memory_mb, 64);
    assert_eq!(copy.execution.max_fuel, 42);
}

#[test]
fn default_functions_give_documented_values() {
    assert!(defaults::pooling_allocator());
    assert_eq!(defaults::max_instances(), 1000);
    assert_eq!(defaults::instance_memory_mb(), 64);
    assert!(defaults::cache_compiled_modules());
    assert!(defaults::epoch_interruption());
    assert_eq!(defaults::max_fuel(), 10_000_000);
    assert_eq!(defaults::timeout_ms(), 100);
    assert_eq!(defaults::max_memory_mb(), 128);
    assert!(defaults::fuel_metering());
    assert_eq!(defaults::bind_addr(), "0.0.0.0:8080");
    assert_eq!(defaults::request_timeout_secs(), 30);
    assert!(defaults::graceful_shutdown());
    assert_eq!(defaults::admin_prefix(), "/admin");
}

#[test]
fn config_file_errors_render_as_text() {
    let parse = ConfigFileError::Parse {
        message: "unexpected token".to_string(),
    };
    assert_eq!(
        parse.to_string(),
        "Failed to parse config file: unexpected token"
    );

    let io = ConfigFileError::Io {
        path: "/etc/edge.toml".to_string(),
        source: std::io::Error::new(std::io::ErrorKind::NotFound, "gone"),
    };
    assert_eq!(
        io.to_string(),
        "Failed to read config file '/etc/edge.toml': gone"
    );
}
