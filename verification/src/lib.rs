//! Execution engine and isolation control plane of an edge compute runtime.
//!
//! Untrusted WebAssembly functions are compiled to artifacts, cached by
//! identifier, and executed one invocation at a time under a fuel and time
//! budget. Guest code reaches the outside world only through the host
//! capabilities: bounds-checked logging and outbound HTTP under a permission set.

pub mod admin;
pub mod clock;
pub mod config;
pub mod config_file;
pub mod defaults;
pub mod engine;
pub mod error;
pub mod handler;
pub mod headers;
pub mod http_outbound;
pub mod instance;
pub mod json;
pub mod linker;
pub mod logging;
pub mod module;
pub mod permissions;
pub mod request;
pub mod response;
pub mod state;
pub mod store;
pub mod text;

pub use admin::{AdminRouterConfig, ModuleInfo};
pub use config::{EngineConfig, ExecutionConfig, RuntimeConfig};
pub use config_file::{AdminConfig, ConfigFile, ConfigFileError, ModuleEntry, ServerConfigFile};
pub use engine::WasmEngine;
pub use error::{HostFunctionError, RuntimeError, WasiError};
pub use http_outbound::HttpOutboundHost;
pub use instance::{ExecutionResult, InstanceRunner};
pub use linker::create_instance_runner;
pub use logging::LoggingHost;
pub use module::CompiledModule;
pub use permissions::Permissions;
pub use state::AppState;
pub use store::{ExecutionMetrics, LogEntry, LogLevel, WorkerContext};
