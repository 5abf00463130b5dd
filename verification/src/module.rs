//! The module compiler: turns raw bytes into a compiled artifact, tagged as
//! a core module or a component, that carries the content hash of the bytes
//! it was compiled from.
//!
//! The content hash is a fast, non-cryptographic fingerprint, rendered as 16
//! lowercase hexadecimal digits. It names cached and persisted artifacts; it
//! is no integrity check.

use crate::engine::{error_message, error_text};
use crate::error::RuntimeError;
use crate::text::{
    chars_of, concat2, concat3, hex_digit_char, hex_fixed, hex_string, lemma_hex_fixed_digits,
    lemma_hex_fixed_len, same_chars,
};
use std::collections::hash_map::DefaultHasher;
use std::hash::{Hash, Hasher};
use std::time::Instant;
use vstd::prelude::*;
use vstd::std_specs::hash::DefaultHasherAdditionalSpecFns;
use vstd::string::*;

verus! {

/// `wasmtime::Module`: a compiled core module, carried as an opaque value.
#[verifier::external_type_specification]
#[verifier::external_body]
pub struct ExModule(wasmtime::Module);

/// `wasmtime::component::Component`: a compiled component, carried as an
/// opaque value.
#[verifier::external_type_specification]
#[verifier::external_body]
pub struct ExComponent(wasmtime::component::Component);

/// The compiled code of an artifact, by kind.
#[derive(Clone)]
pub enum ModuleKind {
    /// A core module.
    Core(wasmtime::Module),
    /// A component.
    Component(wasmtime::component::Component),
}

/// A compiled artifact: compiled once, executed many times.
#[derive(Clone)]
pub struct CompiledModule {
    inner: ModuleKind,
    content_hash: String,
    compiled_at: Instant,
}

/// Why a header is refused, or `None` where the bytes begin like a module:
/// at least 8 bytes, the first four being `\0asm`.
pub open spec fn header_fault(bytes: Seq<u8>) -> Option<Seq<char>> {
    if bytes.len() < 8 {
        Some("Invalid Wasm: file too small"@)
    } else if !has_wasm_magic(bytes) {
        Some("Invalid Wasm: bad magic number"@)
    } else {
        None
    }
}

/// The first four bytes are `\0asm`.
pub open spec fn has_wasm_magic(bytes: Seq<u8>) -> bool {
    bytes.len() >= 4 && bytes[0] == 0x00 && bytes[1] == 0x61 && bytes[2] == 0x73 && bytes[3]
        == 0x6d
}

/// What hashing a byte slice writes into a hasher that has `written` in it.
pub uninterp spec fn slice_writes(written: Seq<Seq<u8>>, bytes: Seq<u8>) -> Seq<Seq<u8>>;

/// `<[u8] as Hash>::hash` of the standard library: feeds the slice into the
/// hasher. What the hasher has then been fed depends on what it held before
/// and on the bytes alone, for one build of the standard library.
#[verifier::external_body]
fn hash_slice(bytes: &[u8], state: &mut DefaultHasher)
    ensures
        final(state)@ == slice_writes(old(state)@, bytes@),
{
    bytes.hash(state)
}

/// The bytes that a compiled core module serializes to, or `None` where the
/// module cannot be serialized because it was taken out of a component.
pub uninterp spec fn module_image(module: wasmtime::Module) -> Option<Seq<u8>>;

/// The bytes that a compiled component serializes to.
pub uninterp spec fn component_image(component: wasmtime::component::Component) -> Seq<u8>;

/// `<wasmtime::Module as Clone>::clone`: another handle to the same compiled
/// module, which serializes to the same bytes.
pub assume_specification[ <wasmtime::Module as Clone>::clone ](m: &wasmtime::Module) -> (r: wasmtime::Module)
    ensures
        module_image(r) == module_image(*m),
;

/// `<wasmtime::component::Component as Clone>::clone`: another handle to the
/// same compiled component, which serializes to the same bytes.
pub assume_specification[ <wasmtime::component::Component as Clone>::clone ](c: &wasmtime::component::Component) -> (r: wasmtime::component::Component)
    ensures
        component_image(r) == component_image(*c),
;

/// Whether the engine's compiler accepts the bytes, in binary or text form,
/// as a core module.
pub uninterp spec fn core_accepted(engine: wasmtime::Engine, bytes: Seq<u8>) -> bool;

/// The text of the error with which the engine's compiler rejects bytes
/// that it does not accept as a core module.
pub uninterp spec fn core_rejection(engine: wasmtime::Engine, bytes: Seq<u8>) -> Seq<char>;

/// Whether the engine's compiler accepts the bytes, in binary or text form,
/// as a component.
pub uninterp spec fn component_accepted(engine: wasmtime::Engine, bytes: Seq<u8>) -> bool;

/// The text of the error with which the engine's compiler rejects bytes
/// that it does not accept as a component.
pub uninterp spec fn component_rejection(engine: wasmtime::Engine, bytes: Seq<u8>) -> Seq<char>;

/// Whether bytes compile to a core module on an engine: their header is not
/// refused and the engine's compiler accepts them.
pub open spec fn core_compiles(engine: wasmtime::Engine, bytes: Seq<u8>) -> bool {
    header_fault(bytes) is None && core_accepted(engine, bytes)
}

/// The reason with which bytes that do not compile to a core module are
/// refused: the fault of their header, or else the compiler's rejection.
pub open spec fn core_failure(engine: wasmtime::Engine, bytes: Seq<u8>) -> Seq<char> {
    match header_fault(bytes) {
        Some(fault) => fault,
        None => "Core module compilation failed: "@ + core_rejection(engine, bytes),
    }
}

/// Whether bytes compile to a component on an engine: their header is not
/// refused and the engine's compiler accepts them.
pub open spec fn component_compiles(engine: wasmtime::Engine, bytes: Seq<u8>) -> bool {
    header_fault(bytes) is None && component_accepted(engine, bytes)
}

/// The reason with which bytes that do not compile to a component are
/// refused: the fault of their header, or else the compiler's rejection.
pub open spec fn component_failure(engine: wasmtime::Engine, bytes: Seq<u8>) -> Seq<char> {
    match header_fault(bytes) {
        Some(fault) => fault,
        None => "Component compilation failed: "@ + component_rejection(engine, bytes),
    }
}

/// `Module::new` of the `wasmtime` crate: compiles a core module from its
/// binary or text form. Whether the bytes are accepted, and the text of the
/// rejection, depend on the engine and the bytes alone. A module that was
/// compiled this way can be serialized.
#[verifier::external_body]
fn compile_core(engine: &wasmtime::Engine, bytes: &[u8]) -> (r: Result<
    wasmtime::Module,
    wasmtime::Error,
>)
    ensures
        r is Ok <==> core_accepted(*engine, bytes@),
        r matches Ok(module) ==> module_image(module) is Some,
        r matches Err(e) ==> error_message(e) == core_rejection(*engine, bytes@),
{
    wasmtime::Module::new(engine, bytes)
}

/// `Component::new` of the `wasmtime` crate: compiles a component from its
/// binary or text form. Whether the bytes are accepted, and the text of the
/// rejection, depend on the engine and the bytes alone.
#[verifier::external_body]
fn compile_component(engine: &wasmtime::Engine, bytes: &[u8]) -> (r: Result<
    wasmtime::component::Component,
    wasmtime::Error,
>)
    ensures
        r is Ok <==> component_accepted(*engine, bytes@),
        r matches Err(e) ==> error_message(e) == component_rejection(*engine, bytes@),
{
    wasmtime::component::Component::new(engine, bytes)
}

/// `Module::serialize` of the `wasmtime` crate: the bytes that the compiled
/// module serializes to, which depend on the module alone. It fails exactly
/// for a module that cannot be serialized, with one fixed text.
#[verifier::external_body]
fn serialize_core(module: &wasmtime::Module) -> (r: Result<Vec<u8>, wasmtime::Error>)
    ensures
        match r {
            Ok(bytes) => module_image(*module) == Some(bytes@),
            Err(e) => module_image(*module) is None && error_message(e)
                == "cannot serialize a module exported from a component"@,
        },
{
    module.serialize()
}

/// `Component::serialize` of the `wasmtime` crate: the bytes that the
/// compiled component serializes to, which depend on the component alone.
/// It always succeeds.
#[verifier::external_body]
fn serialize_component(component: &wasmtime::component::Component) -> (r: Result<
    Vec<u8>,
    wasmtime::Error,
>)
    ensures
        r is Ok,
        r matches Ok(bytes) ==> bytes@ == component_image(*component),
{
    component.serialize()
}

/// The 64-bit fingerprint of a byte string.
pub open spec fn fingerprint(bytes: Seq<u8>) -> u64 {
    DefaultHasher::spec_finish(slice_writes(Seq::<Seq<u8>>::empty(), bytes))
}

/// The content hash of a byte string: its fingerprint as 16 lowercase
/// hexadecimal digits.
pub open spec fn content_hash_of(bytes: Seq<u8>) -> Seq<char> {
    hex_fixed(fingerprint(bytes) as nat, 16)
}

/// The stem of a file name: the name itself where it is `..`, holds no dot,
/// or holds its only dot in front; otherwise what stands before the last
/// dot.
pub open spec fn stem_of(name: Seq<char>) -> Seq<char> {
    if name == ".."@ || !name.contains('.') {
        name
    } else {
        let dot = last_dot(name);
        if dot == 0 {
            name
        } else {
            name.take(dot)
        }
    }
}

/// The index of the last dot of a name that holds one.
pub open spec fn last_dot(name: Seq<char>) -> int
    decreases name.len(),
{
    if name.len() == 0 {
        -1
    } else if name.last() == '.' {
        name.len() - 1
    } else {
        last_dot(name.drop_last())
    }
}

/// The extension of a file name: what stands behind the last dot, or
/// `None` where the name is `..`, holds no dot, or holds its only dot in
/// front.
pub open spec fn extension_of(name: Seq<char>) -> Option<Seq<char>> {
    if name == ".."@ || !name.contains('.') || last_dot(name) == 0 {
        None
    } else {
        Some(name.skip(last_dot(name) + 1))
    }
}

/// Whether a file name has the extension of a module file, `wasm`.
pub open spec fn names_module_file(name: Seq<char>) -> bool {
    extension_of(name) == Some("wasm"@)
}

/// The identifier that a module gets from the name of its file: the stem
/// of the name, or the fallback where there is no name.
pub open spec fn id_from_name(name: Option<Seq<char>>, fallback: Seq<char>) -> Seq<char> {
    match name {
        Some(name) => stem_of(name),
        None => fallback,
    }
}

/// The file name under which an artifact is persisted: its content hash, a
/// dot, and the extension.
pub open spec fn artifact_name(content_hash: Seq<char>, extension: Seq<char>) -> Seq<char> {
    content_hash + "."@ + extension
}

/// The text of an optional name.
pub open spec fn optional_name(name: Option<&str>) -> Option<Seq<char>> {
    match name {
        Some(name) => Some(name@),
        None => None,
    }
}

/// The content hash that a loaded artifact gets from its file name: the
/// stem of the name, or `unknown` where there is no name.
pub open spec fn hash_from_name(name: Option<Seq<char>>) -> Seq<char> {
    match name {
        Some(name) => stem_of(name),
        None => "unknown"@,
    }
}

/// Bytes that do not begin with `\0asm` have a refused header, so they
/// never compile.
pub proof fn bytes_without_magic_are_refused(bytes: Seq<u8>)
    requires
        !has_wasm_magic(bytes),
    ensures
        header_fault(bytes) is Some,
{
}

/// Equal bytes have equal content hashes.
pub proof fn content_hash_is_deterministic(first: Seq<u8>, second: Seq<u8>)
    requires
        first =~= second,
    ensures
        content_hash_of(first) == content_hash_of(second),
{
}

/// A content hash is 16 characters long and holds no dot.
pub proof fn content_hash_shape(bytes: Seq<u8>)
    ensures
        content_hash_of(bytes).len() == 16,
        !content_hash_of(bytes).contains('.'),
{
    let value = fingerprint(bytes) as nat;
    lemma_hex_fixed_len(value, 16);
    lemma_hex_fixed_digits(value, 16);
    let hash = content_hash_of(bytes);
    assert forall|i: int| 0 <= i < hash.len() implies hash[i] != '.' by {
        let d = choose|d: nat| d < 16 && hash[i] == hex_digit_char(d);
        assert(hex_digit_char(d) != '.');
    }
}

/// The last dot of a text that ends in a dot and a dot-free extension is
/// that dot.
proof fn lemma_last_dot_of_name(front: Seq<char>, extension: Seq<char>)
    requires
        !extension.contains('.'),
    ensures
        last_dot(front + "."@ + extension) == front.len(),
    decreases extension.len(),
{
    reveal_strlit(".");
    let name = front + "."@ + extension;
    if extension.len() == 0 {
        assert(name.last() == '.');
    } else {
        assert(extension.last() != '.') by {
            assert(extension.contains(extension.last()));
        }
        assert(name.last() == extension.last());
        assert(name.drop_last() =~= front + "."@ + extension.drop_last());
        assert(!extension.drop_last().contains('.')) by {
            if extension.drop_last().contains('.') {
                let k = choose|k: int|
                    0 <= k < extension.drop_last().len() && extension.drop_last()[k] == '.';
                assert(extension[k] == '.');
            }
        }
        lemma_last_dot_of_name(front, extension.drop_last());
    }
}

/// An artifact that is persisted under its content hash and a dot-free
/// extension, and loaded again from that file, has the content hash of the
/// bytes it was compiled from.
pub proof fn persisted_artifact_keeps_content_hash(bytes: Seq<u8>, extension: Seq<char>)
    requires
        !extension.contains('.'),
    ensures
        hash_from_name(Some(artifact_name(content_hash_of(bytes), extension)))
            == content_hash_of(bytes),
{
    reveal_strlit(".");
    reveal_strlit("..");
    let hash = content_hash_of(bytes);
    let name = artifact_name(hash, extension);
    content_hash_shape(bytes);
    lemma_last_dot_of_name(hash, extension);
    assert(name[16] == '.');
    assert(name.contains('.'));
    assert(name != ".."@);
    assert(name.take(16) =~= hash);
}

/// An artifact that is loaded from the file named by the content hash of a
/// compiled artifact and a dot-free extension has the content hash of the
/// compiled one.
pub proof fn loaded_artifact_has_the_compiled_hash(
    compiled: CompiledModule,
    loaded: CompiledModule,
    bytes: Seq<u8>,
    extension: Seq<char>,
)
    requires
        compiled.hash() == content_hash_of(bytes),
        !extension.contains('.'),
        loaded.hash() == hash_from_name(Some(artifact_name(compiled.hash(), extension))),
    ensures
        loaded.hash() == compiled.hash(),
{
    persisted_artifact_keeps_content_hash(bytes, extension);
}

/// The content hash of the bytes.
pub fn compute_hash(bytes: &[u8]) -> (hash: String)
    ensures
        hash@ == content_hash_of(bytes@),
        hash@.len() == 16,
{
    let mut hasher = DefaultHasher::new();
    hash_slice(bytes, &mut hasher);
    let value = hasher.finish();
    hex_string(value, 16)
}

/// The index of the last dot of a file name, if it holds one.
fn find_last_dot(chars: &Vec<char>) -> (dot: Option<usize>)
    ensures
        dot is None <==> !chars@.contains('.'),
        dot matches Some(d) ==> (d < chars@.len() && last_dot(chars@) == d),
{
    let mut dot: Option<usize> = None;
    let mut i: usize = 0;
    while i < chars.len()
        invariant
            i <= chars@.len(),
            dot is None ==> !chars@.take(i as int).contains('.'),
            dot matches Some(d) ==> d < i && last_dot(chars@.take(i as int)) == d
                && chars@.take(i as int).contains('.'),
        decreases chars@.len() - i,
    {
        let ghost before = chars@.take(i as int);
        let ghost after = chars@.take(i + 1);
        proof {
            assert(after.drop_last() =~= before);
            assert(after.last() == chars@[i as int]);
        }
        if chars[i] == '.' {
            dot = Some(i);
            assert(after[i as int] == '.');
        } else {
            proof {
                if before.contains('.') {
                    let k = choose|k: int| 0 <= k < before.len() && before[k] == '.';
                    assert(after[k] == '.');
                }
                if after.contains('.') {
                    let k = choose|k: int| 0 <= k < after.len() && after[k] == '.';
                    assert(before[k] == '.');
                }
            }
        }
        i += 1;
    }
    assert(chars@.take(i as int) =~= chars@);
    dot
}

/// Whether a file name is `..`.
fn is_parent_name(chars: &Vec<char>) -> (r: bool)
    ensures
        r == (chars@ == ".."@),
{
    proof {
        reveal_strlit("..");
    }
    let r = chars.len() == 2 && chars[0] == '.' && chars[1] == '.';
    if r {
        assert(chars@ =~= ".."@);
    }
    r
}

/// The stem of a file name.
pub fn file_stem(name: &str) -> (stem: String)
    ensures
        stem@ == stem_of(name@),
{
    let chars = chars_of(name);
    let parent = is_parent_name(&chars);
    match find_last_dot(&chars) {
        Some(d) => {
            if parent || d == 0 {
                String::from_str(name)
            } else {
                String::from_str(name.substring_char(0, d))
            }
        },
        None => String::from_str(name),
    }
}

/// Whether a file name has the extension of a module file, `wasm`.
pub fn is_module_file(name: &str) -> (r: bool)
    ensures
        r == names_module_file(name@),
{
    let chars = chars_of(name);
    let parent = is_parent_name(&chars);
    match find_last_dot(&chars) {
        Some(d) => {
            if parent || d == 0 {
                false
            } else {
                let end = chars.len();
                let extension = vstd::slice::slice_subrange(chars.as_slice(), d + 1, end);
                let wanted = chars_of("wasm");
                same_chars(extension, wanted.as_slice())
            }
        },
        None => false,
    }
}

/// The identifier that a module gets from the name of its file.
pub fn module_id_from_name(name: Option<&str>, fallback: &str) -> (id: String)
    ensures
        id@ == id_from_name(
            match name {
                Some(name) => Some(name@),
                None => None,
            },
            fallback@,
        ),
{
    match name {
        Some(name) => file_stem(name),
        None => String::from_str(fallback),
    }
}

/// The file name under which an artifact is persisted.
pub fn artifact_file_name(content_hash: &str, extension: &str) -> (name: String)
    ensures
        name@ == artifact_name(content_hash@, extension@),
{
    concat3(content_hash, ".", extension)
}

impl CompiledModule {
    /// The content hash of the artifact.
    pub closed spec fn hash(&self) -> Seq<char> {
        self.content_hash@
    }

    /// The artifact is a component, not a core module.
    pub closed spec fn component(&self) -> bool {
        self.inner is Component
    }

    /// The compiled core module that the artifact holds; it has a meaning
    /// only for an artifact that is no component.
    pub closed spec fn held_module(&self) -> wasmtime::Module {
        match self.inner {
            ModuleKind::Core(module) => module,
            ModuleKind::Component(_) => arbitrary(),
        }
    }

    /// The compiled component that the artifact holds; it has a meaning
    /// only for an artifact that is a component.
    pub closed spec fn held_component(&self) -> wasmtime::component::Component {
        match self.inner {
            ModuleKind::Component(component) => component,
            ModuleKind::Core(_) => arbitrary(),
        }
    }

    /// The bytes that the artifact serializes to, or `None` where it cannot
    /// be serialized.
    pub open spec fn image(&self) -> Option<Seq<u8>> {
        if self.component() {
            Some(component_image(self.held_component()))
        } else {
            module_image(self.held_module())
        }
    }

    /// The reading of the clock that was taken when the artifact was
    /// compiled or loaded.
    pub closed spec fn stamp(&self) -> Instant {
        self.compiled_at
    }

    /// Checks that the bytes begin like a module: at least 8 bytes, the
    /// first four being `\0asm`.
    pub fn validate_wasm_header(bytes: &[u8]) -> (r: Result<(), RuntimeError>)
        ensures
            match header_fault(bytes@) {
                Some(fault) => r matches Err(RuntimeError::CompilationFailed { reason })
                    && reason@ == fault,
                None => r is Ok,
            },
    {
        if bytes.len() < 8 {
            return Err(RuntimeError::compilation_failed("Invalid Wasm: file too small"));
        }
        if bytes[0] != 0x00 || bytes[1] != 0x61 || bytes[2] != 0x73 || bytes[3] != 0x6d {
            return Err(RuntimeError::compilation_failed("Invalid Wasm: bad magic number"));
        }
        Ok(())
    }

    /// Compiles a core module. Bytes with a refused header are rejected
    /// before the compiler sees them; the rest compiles exactly where the
    /// engine's compiler accepts it. An artifact carries the content hash of
    /// the bytes; a rejection is reported with the compiler's text.
    pub fn from_bytes(engine: &wasmtime::Engine, bytes: &[u8]) -> (r: Result<Self, RuntimeError>)
        ensures
            r is Ok <==> core_compiles(*engine, bytes@),
            r matches Ok(artifact) ==> artifact.hash() == content_hash_of(bytes@)
                && !artifact.component() && artifact.image() is Some,
            r matches Err(e) ==> e matches RuntimeError::CompilationFailed { reason } && reason@
                == core_failure(*engine, bytes@),
    {
        match Self::validate_wasm_header(bytes) {
            Ok(()) => {},
            Err(e) => {
                return Err(e);
            },
        }
        match compile_core(engine, bytes) {
            Ok(module) => Ok(
                CompiledModule {
                    inner: ModuleKind::Core(module),
                    content_hash: compute_hash(bytes),
                    compiled_at: Instant::now(),
                },
            ),
            Err(e) => {
                let detail = error_text(&e);
                Err(
                    RuntimeError::CompilationFailed {
                        reason: concat2("Core module compilation failed: ", detail.as_str()),
                    },
                )
            },
        }
    }

    /// Compiles a component; as `from_bytes`, for the other kind.
    pub fn from_component_bytes(engine: &wasmtime::Engine, bytes: &[u8]) -> (r: Result<
        Self,
        RuntimeError,
    >)
        ensures
            r is Ok <==> component_compiles(*engine, bytes@),
            r matches Ok(artifact) ==> artifact.hash() == content_hash_of(bytes@)
                && artifact.component() && artifact.image() is Some,
            r matches Err(e) ==> e matches RuntimeError::CompilationFailed { reason } && reason@
                == component_failure(*engine, bytes@),
    {
        match Self::validate_wasm_header(bytes) {
            Ok(()) => {},
            Err(e) => {
                return Err(e);
            },
        }
        match compile_component(engine, bytes) {
            Ok(component) => Ok(
                CompiledModule {
                    inner: ModuleKind::Component(component),
                    content_hash: compute_hash(bytes),
                    compiled_at: Instant::now(),
                },
            ),
            Err(e) => {
                let detail = error_text(&e);
                Err(
                    RuntimeError::CompilationFailed {
                        reason: concat2("Component compilation failed: ", detail.as_str()),
                    },
                )
            },
        }
    }

    /// Compiles a core module from its text form, exactly where the
    /// engine's compiler accepts the text. An artifact carries the content
    /// hash of the text's bytes.
    pub fn from_wat(engine: &wasmtime::Engine, wat: &str) -> (r: Result<Self, RuntimeError>)
        ensures
            r is Ok <==> core_accepted(*engine, wat.spec_bytes()),
            r matches Ok(artifact) ==> artifact.hash() == content_hash_of(wat.spec_bytes())
                && !artifact.component() && artifact.image() is Some,
            r matches Err(e) ==> e matches RuntimeError::CompilationFailed { reason } && reason@
                == "WAT compilation failed: "@ + core_rejection(*engine, wat.spec_bytes()),
    {
        let bytes = wat.as_bytes();
        match compile_core(engine, bytes) {
            Ok(module) => Ok(
                CompiledModule {
                    inner: ModuleKind::Core(module),
                    content_hash: compute_hash(bytes),
                    compiled_at: Instant::now(),
                },
            ),
            Err(e) => {
                let detail = error_text(&e);
                Err(
                    RuntimeError::CompilationFailed {
                        reason: concat2("WAT compilation failed: ", detail.as_str()),
                    },
                )
            },
        }
    }

    /// Wraps a core module that was loaded from a precompiled file. The
    /// file is trusted: its name gives the content hash, and nothing checks
    /// that the two agree. A failed load is a compilation error that names
    /// the path and holds the text of the engine's error.
    pub fn from_precompiled(
        loaded: Result<wasmtime::Module, wasmtime::Error>,
        path: &str,
        file_name: Option<&str>,
    ) -> (r: Result<Self, RuntimeError>)
        ensures
            match loaded {
                Ok(module) => {
                    &&& r matches Ok(artifact)
                    &&& artifact.held_module() == module
                    &&& !artifact.component()
                    &&& artifact.hash() == hash_from_name(optional_name(file_name))
                },
                Err(e) => {
                    &&& r matches Err(RuntimeError::CompilationFailed { reason })
                    &&& reason@ == "Failed to load precompiled module from "@ + path@ + ": "@
                        + error_message(e)
                },
            },
    {
        match loaded {
            Ok(module) => Ok(
                CompiledModule {
                    inner: ModuleKind::Core(module),
                    content_hash: Self::hash_of_file(file_name),
                    compiled_at: Instant::now(),
                },
            ),
            Err(e) => {
                let detail = error_text(&e);
                let mut reason = concat3("Failed to load precompiled module from ", path, ": ");
                reason.append(detail.as_str());
                Err(RuntimeError::CompilationFailed { reason })
            },
        }
    }

    /// Wraps a component that was loaded from a precompiled file; as
    /// `from_precompiled`, for the other kind.
    pub fn from_precompiled_component(
        loaded: Result<wasmtime::component::Component, wasmtime::Error>,
        path: &str,
        file_name: Option<&str>,
    ) -> (r: Result<Self, RuntimeError>)
        ensures
            match loaded {
                Ok(component) => {
                    &&& r matches Ok(artifact)
                    &&& artifact.held_component() == component
                    &&& artifact.component()
                    &&& artifact.hash() == hash_from_name(optional_name(file_name))
                },
                Err(e) => {
                    &&& r matches Err(RuntimeError::CompilationFailed { reason })
                    &&& reason@ == "Failed to load precompiled component from "@ + path@ + ": "@
                        + error_message(e)
                },
            },
    {
        match loaded {
            Ok(component) => Ok(
                CompiledModule {
                    inner: ModuleKind::Component(component),
                    content_hash: Self::hash_of_file(file_name),
                    compiled_at: Instant::now(),
                },
            ),
            Err(e) => {
                let detail = error_text(&e);
                let mut reason = concat3("Failed to load precompiled component from ", path, ": ");
                reason.append(detail.as_str());
                Err(RuntimeError::CompilationFailed { reason })
            },
        }
    }

    /// The content hash that a file name gives.
    fn hash_of_file(file_name: Option<&str>) -> (hash: String)
        ensures
            hash@ == hash_from_name(optional_name(file_name)),
    {
        match file_name {
            Some(name) => file_stem(name),
            None => String::from_str("unknown"),
        }
    }

    /// The compiled code as bytes, for loading it again later: the bytes
    /// that the artifact serializes to. An artifact that cannot be
    /// serialized gives a compilation error; every artifact that was
    /// compiled here can be serialized.
    pub fn serialize(&self) -> (r: Result<Vec<u8>, RuntimeError>)
        ensures
            match self.image() {
                Some(image) => r matches Ok(bytes) && bytes@ == image,
                None => r matches Err(RuntimeError::CompilationFailed { reason }) && reason@
                    == "Module serialization failed: "@
                    + "cannot serialize a module exported from a component"@,
            },
    {
        let (bytes, prefix) = match &self.inner {
            ModuleKind::Core(module) => (serialize_core(module), "Module serialization failed: "),
            ModuleKind::Component(component) => (
                serialize_component(component),
                "Component serialization failed: ",
            ),
        };
        match bytes {
            Ok(bytes) => Ok(bytes),
            Err(e) => {
                let detail = error_text(&e);
                Err(RuntimeError::CompilationFailed { reason: concat2(prefix, detail.as_str()) })
            },
        }
    }

    /// The content hash of the artifact.
    pub fn content_hash(&self) -> (hash: &str)
        ensures
            hash@ == self.hash(),
    {
        self.content_hash.as_str()
    }

    /// When the artifact was compiled or loaded.
    pub fn compiled_at(&self) -> (t: Instant)
        ensures
            t == self.stamp(),
    {
        self.compiled_at
    }

    /// Whether the artifact is a component.
    pub fn is_component(&self) -> (r: bool)
        ensures
            r == self.component(),
    {
        match &self.inner {
            ModuleKind::Component(_) => true,
            ModuleKind::Core(_) => false,
        }
    }

    /// The core module of the artifact. A component has none: the caller
    /// tells the kinds apart with `is_component` first.
    pub fn as_core_module(&self) -> (module: &wasmtime::Module)
        requires
            !self.component(),
        ensures
            *module == self.held_module(),
    {
        match &self.inner {
            ModuleKind::Core(module) => module,
            ModuleKind::Component(_) => unreached(),
        }
    }

    /// The component of the artifact. A core module has none: the caller
    /// tells the kinds apart with `is_component` first.
    pub fn as_component(&self) -> (component: &wasmtime::component::Component)
        requires
            self.component(),
        ensures
            *component == self.held_component(),
    {
        match &self.inner {
            ModuleKind::Component(component) => component,
            ModuleKind::Core(_) => unreached(),
        }
    }
}

impl std::fmt::Debug for CompiledModule {
    /// `Formatter::debug_struct` of the standard library: the name of the
    /// type with the content hash and the kind of the artifact.
    #[verifier::external_body]
    fn fmt(&self, f: &mut std::fmt::Formatter<'_>) -> std::fmt::Result {
        f.debug_struct("CompiledModule")
            .field("content_hash", &self.content_hash)
            .field("is_component", &self.is_component())
            .finish_non_exhaustive()
    }
}

} // verus!
