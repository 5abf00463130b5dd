use edge_runtime::error::{HostFunctionError, RuntimeError};
use edge_runtime::handler::{
    error_to_response, execution_response, function_not_found, internal_error, logs_to_json,
    modules_response, readiness_response,
};
use edge_runtime::store::{LogLevel, WorkerContext};
use edge_runtime::instance::ExecutionResult;
use edge_runtime::request::WasmHttpRequest;
use edge_runtime::response::WasmHttpResponse;

#[test]
fn test_error_to_response_not_found() {
    let err = RuntimeError::ModuleNotFound {
        module_id: "test".to_string(),
    };
    let resp = error_to_response(err);
    assert_eq!(resp.status, 404);
}

#[test]
fn test_error_to_response_fuel_exhausted() {
    let err = RuntimeError::FuelExhausted;
    let resp = error_to_response(err);
    assert_eq!(resp.status, 429);
}

#[test]
fn test_error_to_response_timeout() {
    let err = RuntimeError::ExecutionTimeout { duration_ms: 5000 };
    let resp = error_to_response(err);
    assert_eq!(resp.status, 504);
}

#[test]
fn test_new_request() {
    let req = WasmHttpRequest::new("GET", "/api/test");
    assert_eq!(req.method, "GET");
    assert_eq!(req.uri, "/api/test");
    assert!(req.headers.is_empty());
    assert!(req.body.is_none());
}

#[test]
fn test_get_header() {
    let mut req = WasmHttpRequest::new("GET", "/");
    req.headers
        .push(("Content-Type".to_string(), "application/json".to_string()));

    assert_eq!(req.get_header("content-type"), Some("application/json"));
    assert_eq!(req.get_header("Content-Type"), Some("application/json"));
    assert!(req.get_header("X-Missing").is_none());
}

#[test]
fn test_is_json() {
    let mut req = WasmHttpRequest::new("POST", "/");
    assert!(!req.is_json());

    req.headers
        .push(("Content-Type".to_string(), "application/json".to_string()));
    assert!(req.is_json());

    req.headers[0].1 = "application/json; charset=utf-8".to_string();
    assert!(req.is_json());
}

#[test]
fn test_text_response() {
    let resp = WasmHttpResponse::text(200, "Hello, World!");
    assert_eq!(resp.status, 200);
    assert_eq!(resp.body, b"Hello, World!");
    assert_eq!(
        resp.headers[0],
        (
            "content-type".to_string(),
            "text/plain; charset=utf-8".to_string()
        )
    );
}

#[test]
fn test_json_response() {
    let resp = WasmHttpResponse::json(201, r#"{"id": 1}"#);
    assert_eq!(resp.status, 201);
    assert_eq!(resp.body, br#"{"id": 1}"#);
    assert_eq!(
        resp.headers[0],
        ("content-type".to_string(), "application/json".to_string())
    );
}

#[test]
fn test_error_response() {
    let resp = WasmHttpResponse::error(404, "Not found");
    assert_eq!(resp.status, 404);
    assert!(String::from_utf8_lossy(&resp.body).contains("Not found"));
}

#[test]
fn test_with_header() {
    let resp = WasmHttpResponse::text(200, "OK")
        .with_header("X-Request-Id", "123")
        .with_header("X-Custom", "value");

    assert_eq!(resp.headers.len(), 3);
    assert_eq!(
        resp.headers[1],
        ("X-Request-Id".to_string(), "123".to_string())
    );
}

#[test]
fn error_body_is_a_json_object_with_the_escaped_message() {
    let resp = WasmHttpResponse::error(500, "a \"quoted\" line\nand a \\ slash");
    assert_eq!(
        String::from_utf8(resp.body).unwrap(),
        r#"{"error":"a \"quoted\" line\nand a \\ slash"}"#
    );
    assert_eq!(
        resp.headers,
        vec![("content-type".to_string(), "application/json".to_string())]
    );
    let resp = WasmHttpResponse::error(404, "Not found");
    assert_eq!(resp.body, br#"{"error":"Not found"}"#);
}

#[test]
fn empty_and_default_responses() {
    let resp = WasmHttpResponse::empty(204);
    assert_eq!(resp.status, 204);
    assert!(resp.headers.is_empty());
    assert!(resp.body.is_empty());

    let resp = WasmHttpResponse::default();
    assert_eq!(resp.status, 200);
    assert_eq!(resp.body, b"OK");
    assert_eq!(
        resp.headers,
        vec![(
            "content-type".to_string(),
            "text/plain; charset=utf-8".to_string()
        )]
    );
}

#[test]
fn every_error_is_answered_with_its_status_and_line() {
    let answer = |err: RuntimeError| {
        let resp = error_to_response(err);
        (resp.status, String::from_utf8(resp.body).unwrap())
    };
    assert_eq!(
        answer(RuntimeError::module_not_found("hello")),
        (404, r#"{"error":"Module not found: hello"}"#.to_string())
    );
    assert_eq!(
        answer(RuntimeError::EntryPointNotFound {
            name: "_start".to_string()
        }),
        (
            404,
            r#"{"error":"Entry point '_start' not found"}"#.to_string()
        )
    );
    assert_eq!(
        answer(RuntimeError::FuelExhausted),
        (
            429,
            r#"{"error":"Execution limit exceeded: fuel exhausted"}"#.to_string()
        )
    );
    assert_eq!(
        answer(RuntimeError::ExecutionTimeout { duration_ms: 5000 }),
        (
            504,
            r#"{"error":"Execution timeout after 5000ms"}"#.to_string()
        )
    );
    assert_eq!(
        answer(RuntimeError::MemoryLimitExceeded { limit_mb: 128 }),
        (507, r#"{"error":"Memory limit exceeded: 128MB"}"#.to_string())
    );
    assert_eq!(
        answer(RuntimeError::HostFunction(
            HostFunctionError::PermissionDenied {
                resource: "HTTP access".to_string()
            }
        )),
        (
            500,
            r#"{"error":"Host function error: Permission denied: HTTP access"}"#.to_string()
        )
    );
    for err in [
        RuntimeError::compilation_failed("secret detail"),
        RuntimeError::trap("secret detail"),
        RuntimeError::invalid_config("secret detail"),
        RuntimeError::LinkError {
            reason: "secret detail".to_string(),
        },
        RuntimeError::InstantiationError {
            reason: "secret detail".to_string(),
        },
    ] {
        assert_eq!(
            answer(err),
            (500, r#"{"error":"Internal server error"}"#.to_string())
        );
    }
}

#[test]
fn outcome_statuses() {
    let status = |outcome| execution_response(outcome, &Vec::new(), 0, 0).status;
    assert_eq!(status(Ok(ExecutionResult::Success)), 200);
    assert_eq!(
        status(Ok(ExecutionResult::Trap {
            message: "x".to_string(),
            code: None
        })),
        500
    );
    assert_eq!(status(Err(RuntimeError::FuelExhausted)), 429);
    assert_eq!(
        status(Err(RuntimeError::ExecutionTimeout { duration_ms: 1 })),
        504
    );
    assert_eq!(
        status(Err(RuntimeError::MemoryLimitExceeded { limit_mb: 1 })),
        507
    );
    assert_eq!(status(Err(RuntimeError::module_not_found("m"))), 404);
    assert_eq!(status(Err(RuntimeError::trap("t"))), 500);
}

#[test]
fn first_header_of_a_name_wins_without_regard_to_case() {
    let mut req = WasmHttpRequest::new("GET", "/");
    req.headers
        .push(("X-Other".to_string(), "0".to_string()));
    req.headers
        .push(("Accept".to_string(), "first".to_string()));
    req.headers
        .push(("ACCEPT".to_string(), "second".to_string()));
    assert_eq!(req.get_header("accept"), Some("first"));
    assert_eq!(req.get_header("aCCEPT"), Some("first"));
    assert_eq!(req.get_header("x-other"), Some("0"));
    assert_eq!(req.get_header(""), None);
    assert_eq!(req.content_type(), None);
    assert!(!req.is_json());

    req.headers
        .push(("CONTENT-TYPE".to_string(), "text/html".to_string()));
    assert_eq!(req.content_type(), Some("text/html"));
    assert!(!req.is_json());
}

#[test]
fn request_from_parts_keeps_text_headers_and_nonempty_bodies() {
    let headers = vec![
        ("content-type".to_string(), Some("application/json".to_string())),
        ("x-binary".to_string(), None),
        ("x-request-id".to_string(), Some("123".to_string())),
    ];
    let req = WasmHttpRequest::from_parts("POST", "/api/users", &headers, b"{}".to_vec());
    assert_eq!(req.method, "POST");
    assert_eq!(req.uri, "/api/users");
    assert_eq!(
        req.headers,
        vec![
            ("content-type".to_string(), "application/json".to_string()),
            ("x-request-id".to_string(), "123".to_string())
        ]
    );
    assert_eq!(req.body, Some(b"{}".to_vec()));
    assert!(req.is_json());

    let req = WasmHttpRequest::from_parts("GET", "/", &Vec::new(), Vec::new());
    assert!(req.headers.is_empty());
    assert!(req.body.is_none());
}

fn parsed(response: &WasmHttpResponse) -> serde_json::Value {
    assert_eq!(
        response.headers,
        vec![("content-type".to_string(), "application/json".to_string())]
    );
    serde_json::from_slice(&response.body).unwrap()
}

fn members(pairs: Vec<(&str, serde_json::Value)>) -> serde_json::Value {
    serde_json::Value::Object(pairs.into_iter().map(|(k, v)| (k.to_string(), v)).collect())
}

fn string(s: &str) -> serde_json::Value {
    serde_json::Value::String(s.to_string())
}

fn logged() -> WorkerContext {
    let mut ctx = WorkerContext::new("r".into());
    ctx.log(LogLevel::Info, "started".into());
    ctx.log(LogLevel::Error, "said \"no\"".into());
    ctx
}

fn logged_json() -> serde_json::Value {
    serde_json::Value::Array(vec![
        members(vec![("level", string("INFO")), ("message", string("started"))]),
        members(vec![
            ("level", string("ERROR")),
            ("message", string("said \"no\"")),
        ]),
    ])
}

#[test]
fn log_buffer_renders_as_a_list_of_levels_and_messages() {
    let ctx = logged();
    assert_eq!(logs_to_json(&ctx.logs), logged_json());
    assert_eq!(
        logs_to_json(&Vec::new()),
        serde_json::Value::Array(vec![])
    );
    assert_eq!(
        logs_to_json(&ctx.logs).to_string(),
        r#"[{"level":"INFO","message":"started"},{"level":"ERROR","message":"said \"no\""}]"#
    );
}

#[test]
fn successful_execution_is_answered_with_logs_and_metrics() {
    let ctx = logged();
    let response = execution_response(Ok(ExecutionResult::Success), &ctx.logs, 1234, 56);
    assert_eq!(response.status, 200);
    assert_eq!(
        parsed(&response),
        members(vec![
            ("success", serde_json::Value::Bool(true)),
            ("logs", logged_json()),
            (
                "metrics",
                members(vec![
                    ("fuel_consumed", serde_json::Value::from(1234u64)),
                    ("duration_ms", serde_json::Value::from(56u64)),
                ])
            ),
        ])
    );
}

#[test]
fn trapped_execution_is_answered_with_the_trap_and_logs() {
    let ctx = logged();
    let response = execution_response(
        Ok(ExecutionResult::Trap {
            message: "wasm trap: unreachable".to_string(),
            code: Some("UnreachableCodeReached".to_string()),
        }),
        &ctx.logs,
        10,
        1,
    );
    assert_eq!(response.status, 500);
    assert_eq!(
        parsed(&response),
        members(vec![
            ("success", serde_json::Value::Bool(false)),
            (
                "error",
                members(vec![
                    ("type", string("trap")),
                    ("message", string("wasm trap: unreachable")),
                    ("code", string("UnreachableCodeReached")),
                ])
            ),
            ("logs", logged_json()),
        ])
    );

    let response = execution_response(
        Ok(ExecutionResult::Trap {
            message: "host failure".to_string(),
            code: None,
        }),
        &Vec::new(),
        0,
        0,
    );
    assert_eq!(
        parsed(&response),
        members(vec![
            ("success", serde_json::Value::Bool(false)),
            (
                "error",
                members(vec![
                    ("type", string("trap")),
                    ("message", string("host failure")),
                    ("code", serde_json::Value::Null),
                ])
            ),
            ("logs", serde_json::Value::Array(vec![])),
        ])
    );
}

#[test]
fn failed_execution_is_answered_with_the_report_of_its_error() {
    let ctx = logged();
    let response = execution_response(Err(RuntimeError::FuelExhausted), &ctx.logs, 1000, 3);
    assert_eq!(response.status, 429);
    assert_eq!(
        response.body,
        br#"{"error":"Execution limit exceeded: fuel exhausted"}"#
    );
    let response = execution_response(
        Err(RuntimeError::ExecutionTimeout { duration_ms: 100 }),
        &ctx.logs,
        7,
        100,
    );
    assert_eq!(response.status, 504);
}

#[test]
fn missing_function_and_setup_failure_are_reported() {
    let response = function_not_found("hello");
    assert_eq!(response.status, 404);
    assert_eq!(response.body, br#"{"error":"Function 'hello' not found"}"#);
    let response = internal_error();
    assert_eq!(response.status, 500);
    assert_eq!(response.body, br#"{"error":"Internal server error"}"#);
}

#[test]
fn probes_and_listings_are_answered_in_json() {
    let response = readiness_response(3);
    assert_eq!(response.status, 200);
    assert_eq!(
        parsed(&response),
        members(vec![
            ("status", string("ready")),
            ("modules_loaded", serde_json::Value::from(3u64)),
        ])
    );

    let response = modules_response(&vec!["a".to_string(), "b\"c".to_string()]);
    assert_eq!(response.status, 200);
    assert_eq!(
        parsed(&response),
        members(vec![
            (
                "modules",
                serde_json::Value::Array(vec![string("a"), string("b\"c")])
            ),
            ("count", serde_json::Value::from(2u64)),
        ])
    );
    let response = modules_response(&Vec::new());
    assert_eq!(
        parsed(&response),
        members(vec![
            ("modules", serde_json::Value::Array(vec![])),
            ("count", serde_json::Value::from(0u64)),
        ])
    );
}
