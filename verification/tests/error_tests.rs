use edge_runtime::error::{HostFunctionError, RuntimeError, WasiError};

#[test]
fn test_error_display() {
    let err = RuntimeError::module_not_found("test-module");
    assert_eq!(err.to_string(), "Module not found: test-module");

    let err = RuntimeError::FuelExhausted;
    assert_eq!(err.to_string(), "Fuel exhausted: CPU limit exceeded");
}

#[test]
fn test_error_from_host_function() {
    let host_err = HostFunctionError::PermissionDenied {
        resource: "HTTP access".into(),
    };
    let runtime_err: RuntimeError = host_err.into();

    assert!(matches!(runtime_err, RuntimeError::HostFunction(_)));
}

#[test]
fn test_is_resource_limit() {
    assert!(RuntimeError::FuelExhausted.is_resource_limit());
    assert!(RuntimeError::MemoryLimitExceeded { limit_mb: 128 }.is_resource_limit());
    assert!(RuntimeError::ExecutionTimeout { duration_ms: 100 }.is_resource_limit());
    assert!(!RuntimeError::module_not_found("test").is_resource_limit());
}

#[test]
fn test_is_not_found() {
    assert!(RuntimeError::module_not_found("test").is_not_found());
    assert!(!RuntimeError::FuelExhausted.is_not_found());
}

#[test]
fn every_runtime_error_renders_its_line() {
    assert_eq!(
        RuntimeError::compilation_failed("bad section").to_string(),
        "Compilation failed: bad section"
    );
    assert_eq!(
        RuntimeError::ExecutionTimeout { duration_ms: 1500 }.to_string(),
        "Execution timeout after 1500ms"
    );
    assert_eq!(
        RuntimeError::ExecutionTimeout { duration_ms: 0 }.to_string(),
        "Execution timeout after 0ms"
    );
    assert_eq!(
        RuntimeError::ExecutionTimeout {
            duration_ms: u64::MAX
        }
        .to_string(),
        "Execution timeout after 18446744073709551615ms"
    );
    assert_eq!(
        RuntimeError::MemoryLimitExceeded { limit_mb: 128 }.to_string(),
        "Memory limit exceeded: 128MB"
    );
    assert_eq!(
        RuntimeError::trap("unreachable").to_string(),
        "Wasm trap: unreachable"
    );
    assert_eq!(
        RuntimeError::invalid_config("no pool").to_string(),
        "Invalid configuration: no pool"
    );
    assert_eq!(
        RuntimeError::LinkError {
            reason: "unknown import".to_string()
        }
        .to_string(),
        "Link failed: unknown import"
    );
    assert_eq!(
        RuntimeError::InstantiationError {
            reason: "pool is full".to_string()
        }
        .to_string(),
        "Instantiation failed: pool is full"
    );
    assert_eq!(
        RuntimeError::EntryPointNotFound {
            name: "_start".to_string()
        }
        .to_string(),
        "Entry point '_start' not found"
    );
    assert_eq!(
        RuntimeError::Io(std::io::Error::new(std::io::ErrorKind::Other, "disk")).to_string(),
        "IO error: disk"
    );
}

#[test]
fn nested_errors_render_their_inner_line() {
    let host = HostFunctionError::HttpRequestFailed {
        url: "https://a.example/x".to_string(),
        status: 503,
    };
    assert_eq!(
        host.to_string(),
        "HTTP request failed: https://a.example/x (status: 503)"
    );
    assert_eq!(
        RuntimeError::from(host).to_string(),
        "Host function error: HTTP request failed: https://a.example/x (status: 503)"
    );
    assert_eq!(
        HostFunctionError::KvStore("full".to_string()).to_string(),
        "KV store error: full"
    );
    assert_eq!(
        HostFunctionError::RateLimitExceeded {
            operation: "HTTP request".to_string()
        }
        .to_string(),
        "Rate limit exceeded: HTTP request"
    );
    assert_eq!(
        HostFunctionError::InvalidArgument {
            reason: "negative length".to_string()
        }
        .to_string(),
        "Invalid argument: negative length"
    );
    assert_eq!(
        HostFunctionError::PermissionDenied {
            resource: "HTTP access".to_string()
        }
        .to_string(),
        "Permission denied: HTTP access"
    );

    let wasi = WasiError::FilesystemError {
        operation: "open".to_string(),
    };
    assert_eq!(wasi.to_string(), "WASI filesystem error: open");
    assert_eq!(
        RuntimeError::from(wasi).to_string(),
        "WASI error: WASI filesystem error: open"
    );
    assert_eq!(
        WasiError::InitializationFailed {
            reason: "no table".to_string()
        }
        .to_string(),
        "WASI initialization failed: no table"
    );
    assert_eq!(
        WasiError::EnvironmentError {
            reason: "bad var".to_string()
        }
        .to_string(),
        "WASI environment error: bad var"
    );
}

#[test]
fn io_errors_convert_into_runtime_errors() {
    let err: RuntimeError = std::io::Error::new(std::io::ErrorKind::Other, "x").into();
    assert!(matches!(err, RuntimeError::Io(_)));
    assert!(!err.is_resource_limit());
    assert!(!err.is_not_found());
}
