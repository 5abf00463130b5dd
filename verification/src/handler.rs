//! How the outcome of an execution is answered over HTTP.

use crate::error::RuntimeError;
use crate::headers::pairs;
use crate::instance::ExecutionResult;
use crate::json::{
    array_text, build_object2, build_object3, build_strings, json_array, json_flag, json_null,
    json_number, json_render, json_string, object2, object3, string_text, text_of, texts_of,
};
use crate::response::{content_type_only, error_body, WasmHttpResponse};
use crate::store::LogEntry;
use crate::text::{concat2, concat3, decimal, decimal_string};
use vstd::prelude::*;
use vstd::string::*;
use vstd::utf8::encode_utf8;

verus! {

/// The status that reports an error: 404 for a missing module or entry
/// point, 429 for exhausted fuel, 504 for a timeout, 507 for exceeded
/// memory, and 500 for everything else.
pub open spec fn error_status(error: RuntimeError) -> u16 {
    match error {
        RuntimeError::ModuleNotFound { .. } => 404,
        RuntimeError::EntryPointNotFound { .. } => 404,
        RuntimeError::FuelExhausted => 429,
        RuntimeError::ExecutionTimeout { .. } => 504,
        RuntimeError::MemoryLimitExceeded { .. } => 507,
        _ => 500,
    }
}

/// The message that reports an error to the caller. Errors that concern
/// only the operator are reported as an internal server error.
pub open spec fn error_line(error: RuntimeError) -> Seq<char> {
    match error {
        RuntimeError::ModuleNotFound { module_id } => "Module not found: "@ + module_id@,
        RuntimeError::EntryPointNotFound { name } => "Entry point '"@ + name@ + "' not found"@,
        RuntimeError::FuelExhausted => "Execution limit exceeded: fuel exhausted"@,
        RuntimeError::ExecutionTimeout { duration_ms } => "Execution timeout after "@ + decimal(
            duration_ms as nat,
        ) + "ms"@,
        RuntimeError::MemoryLimitExceeded { limit_mb } => "Memory limit exceeded: "@ + decimal(
            limit_mb as nat,
        ) + "MB"@,
        RuntimeError::HostFunction(inner) => "Host function error: "@ + inner.message(),
        _ => "Internal server error"@,
    }
}

/// The status that answers the outcome of an execution: 200 for success,
/// 500 for a trap, and the status of the error otherwise.
pub open spec fn outcome_status(outcome: Result<ExecutionResult, RuntimeError>) -> u16 {
    match outcome {
        Ok(ExecutionResult::Success) => 200,
        Ok(ExecutionResult::Trap { .. }) => 500,
        Err(error) => error_status(error),
    }
}

/// The JSON text of one log entry: its level by name and its message.
pub open spec fn log_text(entry: LogEntry) -> Seq<char> {
    object2("level"@, string_text(entry.level.name()), "message"@, string_text(entry.message@))
}

/// The JSON text of a log buffer: its entries in order.
pub open spec fn logs_text(logs: Seq<LogEntry>) -> Seq<char> {
    array_text(Seq::new(logs.len(), |i: int| log_text(logs[i])))
}

/// The JSON text that answers a successful execution: the logs and the
/// metrics.
pub open spec fn success_text(logs: Seq<LogEntry>, fuel_consumed: u64, duration_ms: u64) -> Seq<
    char,
> {
    object3(
        "success"@,
        "true"@,
        "logs"@,
        logs_text(logs),
        "metrics"@,
        object2(
            "fuel_consumed"@,
            decimal(fuel_consumed as nat),
            "duration_ms"@,
            decimal(duration_ms as nat),
        ),
    )
}

/// The JSON text that answers a trapped execution: the trap with its
/// message and code, and the logs.
pub open spec fn trap_text(message: Seq<char>, code: Option<Seq<char>>, logs: Seq<LogEntry>) -> Seq<
    char,
> {
    object3(
        "success"@,
        "false"@,
        "error"@,
        object3(
            "type"@,
            string_text("trap"@),
            "message"@,
            string_text(message),
            "code"@,
            match code {
                Some(code) => string_text(code),
                None => "null"@,
            },
        ),
        "logs"@,
        logs_text(logs),
    )
}

/// The JSON text that answers a readiness probe.
pub open spec fn readiness_text(modules_loaded: u64) -> Seq<char> {
    object2(
        "status"@,
        string_text("ready"@),
        "modules_loaded"@,
        decimal(modules_loaded as nat),
    )
}

/// The JSON text that lists the cached modules: their identifiers and
/// their number.
pub open spec fn modules_text(ids: Seq<String>) -> Seq<char> {
    object2(
        "modules"@,
        array_text(Seq::new(ids.len(), |i: int| string_text(ids[i]@))),
        "count"@,
        decimal(ids.len()),
    )
}

/// Whether a response is the JSON response of a status with a text as its
/// body.
pub open spec fn is_json_response(response: WasmHttpResponse, status: u16, text: Seq<char>)
    -> bool {
    &&& response.status == status
    &&& pairs(response.headers@) == content_type_only("application/json"@)
    &&& response.body@ == encode_utf8(text)
}

/// Whether a response is the plain text response of a status with a text
/// as its body.
pub open spec fn is_text_response(response: WasmHttpResponse, status: u16, text: Seq<char>)
    -> bool {
    &&& response.status == status
    &&& pairs(response.headers@) == content_type_only("text/plain; charset=utf-8"@)
    &&& response.body@ == encode_utf8(text)
}

/// Every resource-limit error is answered with a status of its own, never
/// with the status of a generic failure.
pub proof fn resource_limits_have_their_own_status(error: RuntimeError)
    requires
        error is FuelExhausted || error is ExecutionTimeout || error is MemoryLimitExceeded,
    ensures
        error_status(error) != 500,
        error_status(error) != 404,
{
}

/// The response that reports an error.
pub fn error_to_response(error: RuntimeError) -> (response: WasmHttpResponse)
    ensures
        response.status == error_status(error),
        pairs(response.headers@) == content_type_only("application/json"@),
        response.body@ == error_body(error_line(error)),
{
    match error {
        RuntimeError::ModuleNotFound { module_id } => {
            let line = concat2("Module not found: ", module_id.as_str());
            WasmHttpResponse::error(404, line.as_str())
        },
        RuntimeError::EntryPointNotFound { name } => {
            let line = concat3("Entry point '", name.as_str(), "' not found");
            WasmHttpResponse::error(404, line.as_str())
        },
        RuntimeError::FuelExhausted => WasmHttpResponse::error(
            429,
            "Execution limit exceeded: fuel exhausted",
        ),
        RuntimeError::ExecutionTimeout { duration_ms } => {
            let number = decimal_string(duration_ms);
            let line = concat3("Execution timeout after ", number.as_str(), "ms");
            WasmHttpResponse::error(504, line.as_str())
        },
        RuntimeError::MemoryLimitExceeded { limit_mb } => {
            let number = decimal_string(limit_mb as u64);
            let line = concat3("Memory limit exceeded: ", number.as_str(), "MB");
            WasmHttpResponse::error(507, line.as_str())
        },
        RuntimeError::HostFunction(inner) => {
            let detail = inner.to_string();
            let line = concat2("Host function error: ", detail.as_str());
            WasmHttpResponse::error(500, line.as_str())
        },
        _ => WasmHttpResponse::error(500, "Internal server error"),
    }
}

/// The JSON document of a log buffer.
pub fn logs_to_json(logs: &Vec<LogEntry>) -> (document: serde_json::Value)
    ensures
        text_of(document) == logs_text(logs@),
{
    let mut entries: Vec<serde_json::Value> = Vec::new();
    let mut i: usize = 0;
    while i < logs.len()
        invariant
            i <= logs@.len(),
            entries@.len() == i,
            forall|k: int| 0 <= k < i ==> text_of(#[trigger] entries@[k]) == log_text(logs@[k]),
        decreases logs@.len() - i,
    {
        let level = logs[i].level.to_string();
        let entry = build_object2(
            "level",
            json_string(level.as_str()),
            "message",
            json_string(logs[i].message.as_str()),
        );
        entries.push(entry);
        i += 1;
    }
    assert(texts_of(entries@) =~= Seq::new(logs@.len(), |i: int| log_text(logs@[i])));
    json_array(entries)
}

/// The response to a request for a function that is not cached.
pub fn function_not_found(function_id: &str) -> (response: WasmHttpResponse)
    ensures
        response.status == 404,
        pairs(response.headers@) == content_type_only("application/json"@),
        response.body@ == error_body("Function '"@ + function_id@ + "' not found"@),
{
    let line = concat3("Function '", function_id, "' not found");
    WasmHttpResponse::error(404, line.as_str())
}

/// The response where the execution could not be set up.
pub fn internal_error() -> (response: WasmHttpResponse)
    ensures
        response.status == 500,
        pairs(response.headers@) == content_type_only("application/json"@),
        response.body@ == error_body("Internal server error"@),
{
    WasmHttpResponse::error(500, "Internal server error")
}

/// The response that answers the outcome of an execution: for success the
/// logs and the metrics, for a trap the trap and the logs, for an error
/// its report.
pub fn execution_response(
    outcome: Result<ExecutionResult, RuntimeError>,
    logs: &Vec<LogEntry>,
    fuel_consumed: u64,
    duration_ms: u64,
) -> (response: WasmHttpResponse)
    ensures
        response.status == outcome_status(outcome),
        pairs(response.headers@) == content_type_only("application/json"@),
        match outcome {
            Ok(ExecutionResult::Success) => response.body@ == encode_utf8(
                success_text(logs@, fuel_consumed, duration_ms),
            ),
            Ok(ExecutionResult::Trap { message, code }) => response.body@ == encode_utf8(
                trap_text(
                    message@,
                    match code {
                        Some(code) => Some(code@),
                        None => None,
                    },
                    logs@,
                ),
            ),
            Err(error) => response.body@ == error_body(error_line(error)),
        },
{
    match outcome {
        Ok(ExecutionResult::Success) => {
            let metrics = build_object2(
                "fuel_consumed",
                json_number(fuel_consumed),
                "duration_ms",
                json_number(duration_ms),
            );
            let document = build_object3(
                "success",
                json_flag(true),
                "logs",
                logs_to_json(logs),
                "metrics",
                metrics,
            );
            let body = json_render(&document);
            WasmHttpResponse::json(200, body.as_str())
        },
        Ok(ExecutionResult::Trap { message, code }) => {
            let code_document = match &code {
                Some(code) => json_string(code.as_str()),
                None => json_null(),
            };
            let trap = build_object3(
                "type",
                json_string("trap"),
                "message",
                json_string(message.as_str()),
                "code",
                code_document,
            );
            let document = build_object3(
                "success",
                json_flag(false),
                "error",
                trap,
                "logs",
                logs_to_json(logs),
            );
            let body = json_render(&document);
            WasmHttpResponse::json(500, body.as_str())
        },
        Err(error) => error_to_response(error),
    }
}

/// The response to a readiness probe.
pub fn readiness_response(modules_loaded: u64) -> (response: WasmHttpResponse)
    ensures
        is_json_response(response, 200, readiness_text(modules_loaded)),
{
    let document = build_object2(
        "status",
        json_string("ready"),
        "modules_loaded",
        json_number(modules_loaded),
    );
    let body = json_render(&document);
    WasmHttpResponse::json(200, body.as_str())
}

/// The response that lists the cached modules.
pub fn modules_response(ids: &Vec<String>) -> (response: WasmHttpResponse)
    ensures
        is_json_response(response, 200, modules_text(ids@)),
{
    let document = build_object2(
        "modules",
        build_strings(ids),
        "count",
        json_number(ids.len() as u64),
    );
    let body = json_render(&document);
    WasmHttpResponse::json(200, body.as_str())
}

} // verus!
