//! Error taxonomy of the runtime.
//!
//! [`RuntimeError`] is what the engine, the compiler, the execution context
//! and the instance runner report. [`HostFunctionError`] is what a host
//! capability reports to the guest's caller. Each error renders to one fixed
//! line of text.

use crate::text::{concat2, concat3, decimal, decimal_string};
use vstd::prelude::*;
use vstd::string::*;

verus! {

/// `std::io::Error`: an I/O error, carried as an opaque value.
#[verifier::external_type_specification]
#[verifier::external_body]
pub struct ExIoError(std::io::Error);

/// Failure of a host capability.
#[derive(Debug)]
pub enum HostFunctionError {
    /// An outbound HTTP request failed; `status` is 0 when no response came.
    HttpRequestFailed { url: String, status: u16 },
    /// The permission set does not grant the operation.
    PermissionDenied { resource: String },
    /// A key-value store operation failed.
    KvStore(String),
    /// The per-execution quota of the operation is used up.
    RateLimitExceeded { operation: String },
    /// The guest handed the host an argument it cannot accept.
    InvalidArgument { reason: String },
}

/// Failure of the system interface offered to guests.
#[derive(Debug)]
pub enum WasiError {
    /// The system interface context could not be set up.
    InitializationFailed { reason: String },
    /// A filesystem operation failed.
    FilesystemError { operation: String },
    /// The environment of the guest is misconfigured.
    EnvironmentError { reason: String },
}

/// Failure of the runtime itself, from engine construction to the end of an
/// execution.
#[derive(Debug)]
pub enum RuntimeError {
    /// No artifact is cached under this identifier.
    ModuleNotFound { module_id: String },
    /// The bytes are not an acceptable module.
    CompilationFailed { reason: String },
    /// The epoch deadline passed before the guest returned.
    ExecutionTimeout { duration_ms: u64 },
    /// The guest used up its fuel.
    FuelExhausted,
    /// The guest asked for more linear memory than its budget.
    MemoryLimitExceeded { limit_mb: u32 },
    /// A host capability failed.
    HostFunction(HostFunctionError),
    /// The system interface failed.
    Wasi(WasiError),
    /// An I/O operation failed.
    Io(std::io::Error),
    /// The guest trapped.
    Trap { message: String },
    /// The configuration cannot be used.
    InvalidConfig { reason: String },
    /// An import that the artifact requires is not provided by the host.
    LinkError { reason: String },
    /// No instance could be allocated for the artifact.
    InstantiationError { reason: String },
    /// The artifact exports no entry point of that name and signature.
    EntryPointNotFound { name: String },
}

/// `ToString::to_string` of the standard library on an I/O error: the text
/// that the error displays, which comes from the operating system.
#[verifier::external_body]
pub(crate) fn io_error_text(e: &std::io::Error) -> (s: String) {
    e.to_string()
}

impl HostFunctionError {
    /// The line of text that describes the error.
    pub open spec fn message(&self) -> Seq<char> {
        match self {
            HostFunctionError::HttpRequestFailed { url, status } => "HTTP request failed: "@
                + url@ + " (status: "@ + decimal(*status as nat) + ")"@,
            HostFunctionError::PermissionDenied { resource } => "Permission denied: "@
                + resource@,
            HostFunctionError::KvStore(detail) => "KV store error: "@ + detail@,
            HostFunctionError::RateLimitExceeded { operation } => "Rate limit exceeded: "@
                + operation@,
            HostFunctionError::InvalidArgument { reason } => "Invalid argument: "@ + reason@,
        }
    }

    /// Renders the error as text.
    pub fn to_string(&self) -> (s: String)
        ensures
            s@ == self.message(),
    {
        match self {
            HostFunctionError::HttpRequestFailed { url, status } => {
                let number = decimal_string(*status as u64);
                let mut s = concat3("HTTP request failed: ", url.as_str(), " (status: ");
                s.append(number.as_str());
                s.append(")");
                s
            },
            HostFunctionError::PermissionDenied { resource } => concat2(
                "Permission denied: ",
                resource.as_str(),
            ),
            HostFunctionError::KvStore(detail) => concat2("KV store error: ", detail.as_str()),
            HostFunctionError::RateLimitExceeded { operation } => concat2(
                "Rate limit exceeded: ",
                operation.as_str(),
            ),
            HostFunctionError::InvalidArgument { reason } => concat2(
                "Invalid argument: ",
                reason.as_str(),
            ),
        }
    }
}

impl WasiError {
    /// The line of text that describes the error.
    pub open spec fn message(&self) -> Seq<char> {
        match self {
            WasiError::InitializationFailed { reason } => "WASI initialization failed: "@
                + reason@,
            WasiError::FilesystemError { operation } => "WASI filesystem error: "@ + operation@,
            WasiError::EnvironmentError { reason } => "WASI environment error: "@ + reason@,
        }
    }

    /// Renders the error as text.
    pub fn to_string(&self) -> (s: String)
        ensures
            s@ == self.message(),
    {
        match self {
            WasiError::InitializationFailed { reason } => concat2(
                "WASI initialization failed: ",
                reason.as_str(),
            ),
            WasiError::FilesystemError { operation } => concat2(
                "WASI filesystem error: ",
                operation.as_str(),
            ),
            WasiError::EnvironmentError { reason } => concat2(
                "WASI environment error: ",
                reason.as_str(),
            ),
        }
    }
}

impl RuntimeError {
    /// Whether `s` is the line of text that describes the error. The text of
    /// an I/O error comes from the operating system; only its fixed beginning
    /// is determined here.
    pub open spec fn described_by(&self, s: Seq<char>) -> bool {
        match self {
            RuntimeError::ModuleNotFound { module_id } => s == "Module not found: "@
                + module_id@,
            RuntimeError::CompilationFailed { reason } => s == "Compilation failed: "@ + reason@,
            RuntimeError::ExecutionTimeout { duration_ms } => s == "Execution timeout after "@
                + decimal(*duration_ms as nat) + "ms"@,
            RuntimeError::FuelExhausted => s == "Fuel exhausted: CPU limit exceeded"@,
            RuntimeError::MemoryLimitExceeded { limit_mb } => s == "Memory limit exceeded: "@
                + decimal(*limit_mb as nat) + "MB"@,
            RuntimeError::HostFunction(inner) => s == "Host function error: "@ + inner.message(),
            RuntimeError::Wasi(inner) => s == "WASI error: "@ + inner.message(),
            RuntimeError::Io(_) => "IO error: "@.is_prefix_of(s),
            RuntimeError::Trap { message } => s == "Wasm trap: "@ + message@,
            RuntimeError::InvalidConfig { reason } => s == "Invalid configuration: "@ + reason@,
            RuntimeError::LinkError { reason } => s == "Link failed: "@ + reason@,
            RuntimeError::InstantiationError { reason } => s == "Instantiation failed: "@
                + reason@,
            RuntimeError::EntryPointNotFound { name } => s == "Entry point '"@ + name@
                + "' not found"@,
        }
    }

    /// The error for an identifier under which no artifact is cached.
    pub fn module_not_found(module_id: &str) -> (e: Self)
        ensures
            e matches RuntimeError::ModuleNotFound { module_id: id } && id@ == module_id@,
    {
        RuntimeError::ModuleNotFound { module_id: String::from_str(module_id) }
    }

    /// The error for bytes that are not an acceptable module.
    pub fn compilation_failed(reason: &str) -> (e: Self)
        ensures
            e matches RuntimeError::CompilationFailed { reason: r } && r@ == reason@,
    {
        RuntimeError::CompilationFailed { reason: String::from_str(reason) }
    }

    /// The error for a guest trap.
    pub fn trap(message: &str) -> (e: Self)
        ensures
            e matches RuntimeError::Trap { message: m } && m@ == message@,
    {
        RuntimeError::Trap { message: String::from_str(message) }
    }

    /// The error for a configuration that cannot be used.
    pub fn invalid_config(reason: &str) -> (e: Self)
        ensures
            e matches RuntimeError::InvalidConfig { reason: r } && r@ == reason@,
    {
        RuntimeError::InvalidConfig { reason: String::from_str(reason) }
    }

    /// Whether the error says that an artifact is missing.
    pub fn is_not_found(&self) -> (r: bool)
        ensures
            r == (self is ModuleNotFound),
    {
        match self {
            RuntimeError::ModuleNotFound { .. } => true,
            _ => false,
        }
    }

    /// Whether the error says that a resource budget was used up: fuel,
    /// memory or time.
    pub fn is_resource_limit(&self) -> (r: bool)
        ensures
            r == (self is FuelExhausted || self is MemoryLimitExceeded
                || self is ExecutionTimeout),
    {
        match self {
            RuntimeError::FuelExhausted => true,
            RuntimeError::MemoryLimitExceeded { .. } => true,
            RuntimeError::ExecutionTimeout { .. } => true,
            _ => false,
        }
    }

    /// Renders the error as text.
    pub fn to_string(&self) -> (s: String)
        ensures
            self.described_by(s@),
    {
        match self {
            RuntimeError::ModuleNotFound { module_id } => concat2(
                "Module not found: ",
                module_id.as_str(),
            ),
            RuntimeError::CompilationFailed { reason } => concat2(
                "Compilation failed: ",
                reason.as_str(),
            ),
            RuntimeError::ExecutionTimeout { duration_ms } => {
                let number = decimal_string(*duration_ms);
                concat3("Execution timeout after ", number.as_str(), "ms")
            },
            RuntimeError::FuelExhausted => String::from_str("Fuel exhausted: CPU limit exceeded"),
            RuntimeError::MemoryLimitExceeded { limit_mb } => {
                let number = decimal_string(*limit_mb as u64);
                concat3("Memory limit exceeded: ", number.as_str(), "MB")
            },
            RuntimeError::HostFunction(inner) => {
                let detail = inner.to_string();
                concat2("Host function error: ", detail.as_str())
            },
            RuntimeError::Wasi(inner) => {
                let detail = inner.to_string();
                concat2("WASI error: ", detail.as_str())
            },
            RuntimeError::Io(inner) => {
                let detail = io_error_text(inner);
                let s = concat2("IO error: ", detail.as_str());
                assert(s@.subrange(0, "IO error: "@.len() as int) =~= "IO error: "@);
                s
            },
            RuntimeError::Trap { message } => concat2("Wasm trap: ", message.as_str()),
            RuntimeError::InvalidConfig { reason } => concat2(
                "Invalid configuration: ",
                reason.as_str(),
            ),
            RuntimeError::LinkError { reason } => concat2("Link failed: ", reason.as_str()),
            RuntimeError::InstantiationError { reason } => concat2(
                "Instantiation failed: ",
                reason.as_str(),
            ),
            RuntimeError::EntryPointNotFound { name } => concat3(
                "Entry point '",
                name.as_str(),
                "' not found",
            ),
        }
    }
}

impl From<HostFunctionError> for RuntimeError {
    fn from(err: HostFunctionError) -> (e: Self) {
        RuntimeError::HostFunction(err)
    }
}

impl vstd::std_specs::convert::FromSpecImpl<HostFunctionError> for RuntimeError {
    open spec fn obeys_from_spec() -> bool {
        true
    }

    open spec fn from_spec(err: HostFunctionError) -> Self {
        RuntimeError::HostFunction(err)
    }
}

impl From<WasiError> for RuntimeError {
    fn from(err: WasiError) -> (e: Self) {
        RuntimeError::Wasi(err)
    }
}

impl vstd::std_specs::convert::FromSpecImpl<WasiError> for RuntimeError {
    open spec fn obeys_from_spec() -> bool {
        true
    }

    open spec fn from_spec(err: WasiError) -> Self {
        RuntimeError::Wasi(err)
    }
}

impl From<std::io::Error> for RuntimeError {
    fn from(err: std::io::Error) -> (e: Self) {
        RuntimeError::Io(err)
    }
}

impl vstd::std_specs::convert::FromSpecImpl<std::io::Error> for RuntimeError {
    open spec fn obeys_from_spec() -> bool {
        true
    }

    open spec fn from_spec(err: std::io::Error) -> Self {
        RuntimeError::Io(err)
    }
}

} // verus!
