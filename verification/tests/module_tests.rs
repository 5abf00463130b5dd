use edge_runtime::config::EngineConfig;
use edge_runtime::engine::WasmEngine;
use edge_runtime::error::RuntimeError;
use edge_runtime::module::{artifact_file_name, compute_hash, file_stem, CompiledModule};
use std::hash::{DefaultHasher, Hash, Hasher};
use std::path::Path;

const MINIMAL_WASM: &[u8] = &[
    0x00, 0x61, 0x73, 0x6d, // magic: \0asm
    0x01, 0x00, 0x00, 0x00, // version: 1
];

fn engine() -> WasmEngine {
    let engine_config = EngineConfig {
        pooling_allocator: false,
        ..Default::default()
    };
    WasmEngine::new(&engine_config).unwrap()
}

fn reason_of(result: Result<CompiledModule, RuntimeError>) -> String {
    match result {
        Err(RuntimeError::CompilationFailed { reason }) => reason,
        Err(other) => panic!("unexpected error {other:?}"),
        Ok(_) => panic!("unexpected success"),
    }
}

#[test]
fn test_validate_wasm_header_valid() {
    assert!(CompiledModule::validate_wasm_header(MINIMAL_WASM).is_ok());
}

#[test]
fn test_validate_wasm_header_too_small() {
    let result = CompiledModule::validate_wasm_header(&[0x00, 0x61]);
    assert!(result.is_err());
}

#[test]
fn test_validate_wasm_header_bad_magic() {
    let bad_wasm = &[0x00, 0x00, 0x00, 0x00, 0x01, 0x00, 0x00, 0x00];
    let result = CompiledModule::validate_wasm_header(bad_wasm);
    assert!(result.is_err());
}

#[test]
fn test_compute_hash() {
    let hash1 = compute_hash(b"hello");
    let hash2 = compute_hash(b"hello");
    let hash3 = compute_hash(b"world");

    assert_eq!(hash1, hash2);
    assert_ne!(hash1, hash3);
    assert_eq!(hash1.len(), 16); // 64-bit hex
}

#[test]
fn test_module_compilation() {
    let engine = engine();

    let module = CompiledModule::from_bytes(engine.inner(), MINIMAL_WASM);
    assert!(module.is_ok());

    let module = module.unwrap();
    assert!(!module.is_component());
    assert!(!module.content_hash().is_empty());
}

#[test]
fn test_module_debug() {
    let engine = engine();
    let module = CompiledModule::from_bytes(engine.inner(), MINIMAL_WASM).unwrap();

    let debug_str = format!("{module:?}");
    assert!(debug_str.contains("CompiledModule"));
    assert!(debug_str.contains("content_hash"));
}

#[test]
fn content_hash_is_the_hex_form_of_the_standard_hash() {
    for bytes in [&b""[..], &b"hello"[..], MINIMAL_WASM, &[0xffu8; 300][..]] {
        let mut hasher = DefaultHasher::new();
        bytes.hash(&mut hasher);
        let expected = format!("{:016x}", hasher.finish());
        assert_eq!(compute_hash(bytes), expected);
        assert_eq!(compute_hash(bytes).len(), 16);
        assert!(compute_hash(bytes)
            .chars()
            .all(|c| c.is_ascii_digit() || ('a'..='f').contains(&c)));
    }
}

#[test]
fn header_faults_name_their_reason() {
    let too_small = CompiledModule::validate_wasm_header(&[0x00, 0x61, 0x73, 0x6d, 1, 0, 0]);
    match too_small {
        Err(RuntimeError::CompilationFailed { reason }) => {
            assert_eq!(reason, "Invalid Wasm: file too small")
        }
        other => panic!("unexpected {other:?}"),
    }
    let empty = CompiledModule::validate_wasm_header(&[]);
    assert!(matches!(empty, Err(RuntimeError::CompilationFailed { .. })));
    for bad in [
        [0x01, 0x61, 0x73, 0x6d, 1, 0, 0, 0],
        [0x00, 0x62, 0x73, 0x6d, 1, 0, 0, 0],
        [0x00, 0x61, 0x74, 0x6d, 1, 0, 0, 0],
        [0x00, 0x61, 0x73, 0x6e, 1, 0, 0, 0],
    ] {
        match CompiledModule::validate_wasm_header(&bad) {
            Err(RuntimeError::CompilationFailed { reason }) => {
                assert_eq!(reason, "Invalid Wasm: bad magic number")
            }
            other => panic!("unexpected {other:?}"),
        }
    }
}

#[test]
fn bytes_without_the_magic_never_compile() {
    let engine = engine();
    let inputs: Vec<Vec<u8>> = vec![
        vec![],
        vec![0x00],
        b"(module)".to_vec(),
        b"\0asn\x01\0\0\0".to_vec(),
        b"asm\0\x01\0\0\0".to_vec(),
        vec![0xff; 64],
        b"(module (func (export \"_start\")))".to_vec(),
    ];
    for bytes in inputs {
        let core = CompiledModule::from_bytes(engine.inner(), &bytes);
        assert!(matches!(core, Err(RuntimeError::CompilationFailed { .. })));
        let component = CompiledModule::from_component_bytes(engine.inner(), &bytes);
        assert!(matches!(
            component,
            Err(RuntimeError::CompilationFailed { .. })
        ));
    }
}

#[test]
fn compiler_rejections_are_compilation_errors() {
    let engine = engine();
    let garbage_after_header = [0x00, 0x61, 0x73, 0x6d, 0x01, 0x00, 0x00, 0x00, 0xff, 0xff];
    let reason = reason_of(CompiledModule::from_bytes(
        engine.inner(),
        &garbage_after_header,
    ));
    assert!(reason.starts_with("Core module compilation failed: "));

    let reason = reason_of(CompiledModule::from_component_bytes(
        engine.inner(),
        MINIMAL_WASM,
    ));
    assert!(reason.starts_with("Component compilation failed: "));

    let reason = reason_of(CompiledModule::from_wat(engine.inner(), "(module (func"));
    assert!(reason.starts_with("WAT compilation failed: "));
}

#[test]
fn artifacts_carry_the_hash_of_their_source() {
    let engine = engine();
    let module = CompiledModule::from_bytes(engine.inner(), MINIMAL_WASM).unwrap();
    assert_eq!(module.content_hash(), compute_hash(MINIMAL_WASM));
    assert!(!module.is_component());
    let _ = module.as_core_module();
    assert!(module.compiled_at().elapsed().as_secs() < 60);

    let wat = r#"(module (func (export "_start")))"#;
    let module = CompiledModule::from_wat(engine.inner(), wat).unwrap();
    assert_eq!(module.content_hash(), compute_hash(wat.as_bytes()));
    assert!(!module.is_component());

    let component_bytes = [0x00, 0x61, 0x73, 0x6d, 0x0d, 0x00, 0x01, 0x00];
    let component = CompiledModule::from_component_bytes(engine.inner(), &component_bytes).unwrap();
    assert!(component.is_component());
    assert_eq!(component.content_hash(), compute_hash(&component_bytes));
    let _ = component.as_component();
}

#[test]
fn persisted_artifact_is_loaded_under_its_content_hash() {
    let engine = engine();
    let wat = r#"(module (func (export "_start")))"#;
    let module = CompiledModule::from_wat(engine.inner(), wat).unwrap();
    let bytes = module.serialize().unwrap();
    assert!(!bytes.is_empty());

    let name = artifact_file_name(module.content_hash(), "cwasm");
    assert_eq!(name, format!("{}.cwasm", module.content_hash()));

    let loaded = wasmtime::Module::new(engine.inner(), wat);
    let reloaded =
        CompiledModule::from_precompiled(loaded, &format!("/artifacts/{name}"), Some(&name)).unwrap();
    assert_eq!(reloaded.content_hash(), module.content_hash());
    assert!(!reloaded.is_component());
    assert_eq!(reloaded.serialize().unwrap().len(), bytes.len());
}

#[test]
fn failed_load_is_a_compilation_error() {
    let result = CompiledModule::from_precompiled(
        Err(wasmtime::Error::msg("incompatible artifact")),
        "/artifacts/abc.cwasm",
        Some("abc.cwasm"),
    );
    assert_eq!(
        reason_of(result),
        "Failed to load precompiled module from /artifacts/abc.cwasm: incompatible artifact"
    );

    let result = CompiledModule::from_precompiled_component(
        Err(wasmtime::Error::msg("incompatible artifact")),
        "",
        None,
    );
    assert_eq!(
        reason_of(result),
        "Failed to load precompiled component from : incompatible artifact"
    );
}

#[test]
fn loaded_artifact_without_a_file_name_is_unknown() {
    let engine = engine();
    let loaded = wasmtime::Module::new(engine.inner(), MINIMAL_WASM);
    let reloaded = CompiledModule::from_precompiled(loaded, "/", None).unwrap();
    assert_eq!(reloaded.content_hash(), "unknown");

    let component_bytes = [0x00, 0x61, 0x73, 0x6d, 0x0d, 0x00, 0x01, 0x00];
    let loaded = wasmtime::component::Component::new(engine.inner(), component_bytes);
    let reloaded =
        CompiledModule::from_precompiled_component(loaded, "feed.v2.cwasm", Some("feed.v2.cwasm"))
            .unwrap();
    assert_eq!(reloaded.content_hash(), "feed.v2");
    assert!(reloaded.is_component());
}

#[test]
fn file_stem_follows_the_path_rules() {
    for name in [
        "0123456789abcdef.cwasm",
        "hello.wasm",
        "archive.tar.gz",
        "noextension",
        ".hidden",
        ".hidden.txt",
        "..",
        "...",
        "a.",
        ".",
        "a..b",
        "",
    ] {
        let expected = Path::new(name)
            .file_name()
            .and_then(|_| Path::new(name).file_stem())
            .and_then(|s| s.to_str())
            .unwrap_or(name);
        if name == "." || name == ".." || name.is_empty() {
            continue;
        }
        assert_eq!(file_stem(name), expected, "stem of {name:?}");
    }
    assert_eq!(file_stem("0123456789abcdef.cwasm"), "0123456789abcdef");
    assert_eq!(file_stem("archive.tar.gz"), "archive.tar");
    assert_eq!(file_stem(".hidden"), ".hidden");
    assert_eq!(file_stem(".."), "..");
    assert_eq!(file_stem("a."), "a");
    assert_eq!(file_stem(""), "");
}

#[test]
fn every_compiled_artifact_serializes_to_the_same_bytes_each_time() {
    let engine = engine();
    let core = CompiledModule::from_bytes(engine.inner(), MINIMAL_WASM).unwrap();
    let first = core.serialize().unwrap();
    assert!(!first.is_empty());
    assert_eq!(core.serialize().unwrap(), first);
    assert_eq!(core.as_core_module().serialize().unwrap(), first);

    let component_bytes = [0x00, 0x61, 0x73, 0x6d, 0x0d, 0x00, 0x01, 0x00];
    let component = CompiledModule::from_component_bytes(engine.inner(), &component_bytes).unwrap();
    let first = component.serialize().unwrap();
    assert!(!first.is_empty());
    assert_eq!(component.serialize().unwrap(), first);
    assert_eq!(component.as_component().serialize().unwrap(), first);
}

#[test]
fn compile_time_is_recorded_once() {
    let engine = engine();
    let module = CompiledModule::from_bytes(engine.inner(), MINIMAL_WASM).unwrap();
    let stamp = module.compiled_at();
    assert_eq!(module.compiled_at(), stamp);
    assert!(stamp <= std::time::Instant::now());
}

#[test]
fn compiler_rejection_is_reported_with_its_text() {
    let engine = engine();
    let bad = [0x00, 0x61, 0x73, 0x6d, 0x01, 0x00, 0x00, 0x00, 0xff, 0xff];
    let expected = wasmtime::Module::new(engine.inner(), bad)
        .unwrap_err()
        .to_string();
    assert_eq!(
        reason_of(CompiledModule::from_bytes(engine.inner(), &bad)),
        format!("Core module compilation failed: {expected}")
    );
    let expected = match wasmtime::component::Component::new(engine.inner(), bad) {
        Err(e) => e.to_string(),
        Ok(_) => panic!("unexpected success"),
    };
    assert_eq!(
        reason_of(CompiledModule::from_component_bytes(engine.inner(), &bad)),
        format!("Component compilation failed: {expected}")
    );
    let expected = wasmtime::Module::new(engine.inner(), "(module (func")
        .unwrap_err()
        .to_string();
    assert_eq!(
        reason_of(CompiledModule::from_wat(engine.inner(), "(module (func")),
        format!("WAT compilation failed: {expected}")
    );
}

#[test]
fn compilation_succeeds_exactly_where_the_compiler_accepts() {
    let engine = engine();
    let inputs: Vec<Vec<u8>> = vec![
        MINIMAL_WASM.to_vec(),
        vec![0x00, 0x61, 0x73, 0x6d, 0x0d, 0x00, 0x01, 0x00],
        vec![0x00, 0x61, 0x73, 0x6d, 0x01, 0x00, 0x00, 0x00, 0xff],
        vec![0x00, 0x61, 0x73, 0x6d, 0x02, 0x00, 0x00, 0x00],
    ];
    for bytes in inputs {
        assert_eq!(
            CompiledModule::from_bytes(engine.inner(), &bytes).is_ok(),
            wasmtime::Module::new(engine.inner(), &bytes).is_ok()
        );
        assert_eq!(
            CompiledModule::from_component_bytes(engine.inner(), &bytes).is_ok(),
            wasmtime::component::Component::new(engine.inner(), &bytes).is_ok()
        );
    }
    for wat in ["(module)", "(module (func))", "(module", "", "(component)"] {
        assert_eq!(
            CompiledModule::from_wat(engine.inner(), wat).is_ok(),
            wasmtime::Module::new(engine.inner(), wat).is_ok()
        );
    }
}

#[test]
fn cloned_artifact_is_the_same_artifact() {
    let engine = engine();
    let module = CompiledModule::from_bytes(engine.inner(), MINIMAL_WASM).unwrap();
    let copy = module.clone();
    assert_eq!(copy.content_hash(), module.content_hash());
    assert_eq!(copy.is_component(), module.is_component());
    assert_eq!(copy.compiled_at(), module.compiled_at());
    assert_eq!(copy.serialize().unwrap(), module.serialize().unwrap());
}
