//! The shared state of the runtime: the engine, the runner with its host
//! capabilities, the budget of each execution, and the cache of compiled
//! artifacts by logical identifier.
//!
//! An artifact is compiled once and cached under its identifier. Loading
//! under an identifier that is taken replaces the artifact; removing
//! discards it. Artifacts are handed out behind shared handles, so an
//! execution keeps the artifact it started with whatever happens to the
//! cache afterwards.

use crate::config::{ExecutionConfig, RuntimeConfig};
use crate::engine::{representable, WasmEngine};
use crate::error::RuntimeError;
use crate::instance::InstanceRunner;
use crate::linker::{all_capabilities, create_instance_runner};
use crate::module::{
    content_hash_of, core_accepted, core_compiles, core_failure, core_rejection, CompiledModule,
};
use crate::permissions::Permissions;
use dashmap::DashMap;
use std::sync::Arc;
use vstd::prelude::*;
use vstd::string::*;

verus! {

/// `dashmap::DashMap`: a concurrent hash map, used under exclusive access
/// for every change.
#[verifier::external_type_specification]
#[verifier::external_body]
#[verifier::reject_recursive_types(K)]
#[verifier::reject_recursive_types(V)]
#[verifier::reject_recursive_types(S)]
pub struct ExDashMap<K, V, S>(DashMap<K, V, S>);

/// The cache: compiled artifacts, behind shared handles, by identifier.
pub type ModuleCache = DashMap<String, Arc<CompiledModule>>;

/// The shared state of the runtime.
pub struct AppState {
    engine: Arc<WasmEngine>,
    runner: Arc<InstanceRunner>,
    modules: ModuleCache,
    exec_config: ExecutionConfig,
    default_permissions: Permissions,
}

/// What a cache holds: for each identifier in it, the artifact cached
/// under it.
pub uninterp spec fn cache_entries(cache: ModuleCache) -> Map<Seq<char>, CompiledModule>;

/// An empty cache.
pub open spec fn no_entries() -> Map<Seq<char>, CompiledModule> {
    Map::empty()
}

/// `DashMap::new` of the `dashmap` crate: an empty map.
#[verifier::external_body]
fn new_cache() -> (cache: ModuleCache)
    ensures
        cache_entries(cache) == no_entries(),
{
    DashMap::new()
}

/// `DashMap::insert` of the `dashmap` crate: the map then holds the value
/// under the key, in place of what it held there before, and everything
/// else as before.
#[verifier::external_body]
fn cache_insert(cache: &mut ModuleCache, key: String, value: Arc<CompiledModule>)
    ensures
        cache_entries(*final(cache)) == cache_entries(*old(cache)).insert(key@, *value),
{
    cache.insert(key, value);
}

/// `DashMap::get` of the `dashmap` crate: a handle to the value under the
/// key, or `None` where the map holds none.
#[verifier::external_body]
fn cache_get(cache: &ModuleCache, key: &str) -> (r: Option<Arc<CompiledModule>>)
    ensures
        r is Some <==> cache_entries(*cache).contains_key(key@),
        r matches Some(artifact) ==> *artifact == cache_entries(*cache)[key@],
{
    cache.get(key).map(|entry| entry.value().clone())
}

/// `DashMap::remove` of the `dashmap` crate: the map then holds nothing
/// under the key and everything else as before; the result is the value it
/// held there, or `None` where it held none.
#[verifier::external_body]
fn cache_remove(cache: &mut ModuleCache, key: &str) -> (r: Option<Arc<CompiledModule>>)
    ensures
        cache_entries(*final(cache)) == cache_entries(*old(cache)).remove(key@),
        r is Some <==> cache_entries(*old(cache)).contains_key(key@),
        r matches Some(artifact) ==> *artifact == cache_entries(*old(cache))[key@],
{
    cache.remove(key).map(|entry| entry.1)
}

/// `DashMap::iter` of the `dashmap` crate: the keys of the map, each once,
/// in no particular order.
#[verifier::external_body]
fn cache_keys(cache: &ModuleCache) -> (keys: Vec<String>)
    ensures
        texts(keys@).no_duplicates(),
        texts(keys@).to_set() == cache_entries(*cache).dom(),
{
    cache.iter().map(|entry| entry.key().clone()).collect()
}

/// The texts of a list of strings.
pub open spec fn texts(strings: Seq<String>) -> Seq<Seq<char>> {
    Seq::new(strings.len(), |i: int| strings[i]@)
}

/// An artifact that was loaded under an identifier is what the cache holds
/// there afterwards, whatever it held before; every other identifier keeps
/// what it had.
pub proof fn loading_replaces(
    before: Map<Seq<char>, CompiledModule>,
    id: Seq<char>,
    artifact: CompiledModule,
    other: Seq<char>,
)
    requires
        other != id,
    ensures
        before.insert(id, artifact).contains_key(id),
        before.insert(id, artifact)[id] == artifact,
        before.insert(id, artifact).contains_key(other) == before.contains_key(other),
        before.contains_key(other) ==> before.insert(id, artifact)[other] == before[other],
{
}

/// An artifact that was removed is gone from the cache; every other
/// identifier keeps what it had.
pub proof fn removing_discards(before: Map<Seq<char>, CompiledModule>, id: Seq<char>, other: Seq<char>)
    requires
        other != id,
    ensures
        !before.remove(id).contains_key(id),
        before.remove(id).contains_key(other) == before.contains_key(other),
        before.contains_key(other) ==> before.remove(id)[other] == before[other],
{
}

impl AppState {
    /// What the cache holds: the artifact under each identifier.
    pub closed spec fn cached(&self) -> Map<Seq<char>, CompiledModule> {
        cache_entries(self.modules)
    }

    /// The engine that compiles and runs the artifacts.
    pub closed spec fn running_engine(&self) -> wasmtime::Engine {
        self.engine.handle()
    }

    /// The budget of each execution.
    pub closed spec fn budget(&self) -> ExecutionConfig {
        self.exec_config
    }

    /// The permissions that a function gets where nothing else is said.
    pub closed spec fn permissions(&self) -> Permissions {
        self.default_permissions
    }

    /// The configuration of the engine.
    pub closed spec fn engine_config(&self) -> crate::config::EngineConfig {
        self.engine.configuration()
    }

    /// The host capabilities that functions can import, by module and
    /// name.
    pub closed spec fn capabilities(&self) -> Set<(Seq<char>, Seq<char>)> {
        self.runner.capabilities()
    }

    /// Builds the engine and the runner for a configuration, with an empty
    /// cache. By default a function may log and nothing else. It fails with
    /// a configuration error where the engine or the runner cannot be
    /// built.
    pub fn new(config: &RuntimeConfig) -> (r: Result<Self, RuntimeError>)
        ensures
            r matches Ok(state) ==> {
                &&& state.cached() == no_entries()
                &&& state.budget() == config.execution
                &&& state.engine_config() == config.engine
                &&& state.capabilities() == all_capabilities()
                &&& state.permissions() == (Permissions {
                    logging_enabled: true,
                    ..state.permissions()
                })
                &&& state.permissions().allowed_http_hosts@.len() == 0
                &&& !state.permissions().http_enabled
                &&& state.permissions().max_http_requests == 0
            },
            r matches Err(e) ==> e is InvalidConfig,
            !representable(config.engine) ==> r is Err,
    {
        let engine = match WasmEngine::new(&config.engine) {
            Ok(engine) => engine,
            Err(e) => {
                return Err(e);
            },
        };
        let runner = match create_instance_runner(Arc::new(engine.inner().clone())) {
            Ok(runner) => runner,
            Err(e) => {
                return Err(e);
            },
        };
        Ok(
            AppState {
                engine: Arc::new(engine),
                runner: Arc::new(runner),
                modules: new_cache(),
                exec_config: config.execution,
                default_permissions: Permissions::builder().enable_logging().build(),
            },
        )
    }

    /// The engine.
    pub fn engine(&self) -> (engine: &WasmEngine)
        ensures
            engine.handle() == self.running_engine(),
            engine.configuration() == self.engine_config(),
    {
        &self.engine
    }

    /// The runner with its host capabilities.
    pub fn runner(&self) -> (runner: &InstanceRunner)
        ensures
            runner.capabilities() == self.capabilities(),
    {
        &self.runner
    }

    /// A shared handle to the engine, for an execution to keep.
    pub fn engine_handle(&self) -> (engine: Arc<WasmEngine>)
        ensures
            engine.handle() == self.running_engine(),
            engine.configuration() == self.engine_config(),
    {
        self.engine.clone()
    }

    /// A shared handle to the runner, for an execution to keep.
    pub fn runner_handle(&self) -> (runner: Arc<InstanceRunner>)
        ensures
            runner.capabilities() == self.capabilities(),
    {
        self.runner.clone()
    }

    /// The budget of each execution.
    pub fn exec_config(&self) -> (config: &ExecutionConfig)
        ensures
            *config == self.budget(),
    {
        &self.exec_config
    }

    /// The permissions that a function gets where nothing else is said.
    pub fn default_permissions(&self) -> (permissions: &Permissions)
        ensures
            *permissions == self.permissions(),
    {
        &self.default_permissions
    }

    /// Compiles a core module from bytes and caches it under the
    /// identifier, in place of what was cached there. Where compilation
    /// fails the cache stays as it is.
    pub fn load_module(&mut self, module_id: &str, wasm_bytes: &[u8]) -> (r: Result<
        Arc<CompiledModule>,
        RuntimeError,
    >)
        ensures
            r is Ok <==> core_compiles(old(self).running_engine(), wasm_bytes@),
            r matches Ok(artifact) ==> {
                &&& artifact.hash() == content_hash_of(wasm_bytes@)
                &&& !artifact.component()
                &&& artifact.image() is Some
                &&& final(self).cached() == old(self).cached().insert(module_id@, *artifact)
            },
            r matches Err(e) ==> {
                &&& e matches RuntimeError::CompilationFailed { reason }
                &&& reason@ == core_failure(old(self).running_engine(), wasm_bytes@)
                &&& final(self).cached() == old(self).cached()
            },
            final(self).running_engine() == old(self).running_engine(),
            final(self).budget() == old(self).budget(),
            final(self).permissions() == old(self).permissions(),
            final(self).engine_config() == old(self).engine_config(),
            final(self).capabilities() == old(self).capabilities(),
    {
        let compiled = match CompiledModule::from_bytes(self.engine.inner(), wasm_bytes) {
            Ok(compiled) => Arc::new(compiled),
            Err(e) => {
                return Err(e);
            },
        };
        cache_insert(&mut self.modules, String::from_str(module_id), compiled.clone());
        Ok(compiled)
    }

    /// Compiles a core module from its text form and caches it under the
    /// identifier, in place of what was cached there. Where compilation
    /// fails the cache stays as it is.
    pub fn load_module_wat(&mut self, module_id: &str, wat: &str) -> (r: Result<
        Arc<CompiledModule>,
        RuntimeError,
    >)
        ensures
            r is Ok <==> core_accepted(old(self).running_engine(), wat.spec_bytes()),
            r matches Ok(artifact) ==> {
                &&& artifact.hash() == content_hash_of(wat.spec_bytes())
                &&& !artifact.component()
                &&& artifact.image() is Some
                &&& final(self).cached() == old(self).cached().insert(module_id@, *artifact)
            },
            r matches Err(e) ==> {
                &&& e matches RuntimeError::CompilationFailed { reason }
                &&& reason@ == "WAT compilation failed: "@ + core_rejection(
                    old(self).running_engine(),
                    wat.spec_bytes(),
                )
                &&& final(self).cached() == old(self).cached()
            },
            final(self).running_engine() == old(self).running_engine(),
            final(self).budget() == old(self).budget(),
            final(self).permissions() == old(self).permissions(),
            final(self).engine_config() == old(self).engine_config(),
            final(self).capabilities() == old(self).capabilities(),
    {
        let compiled = match CompiledModule::from_wat(self.engine.inner(), wat) {
            Ok(compiled) => Arc::new(compiled),
            Err(e) => {
                return Err(e);
            },
        };
        cache_insert(&mut self.modules, String::from_str(module_id), compiled.clone());
        Ok(compiled)
    }

    /// The artifact cached under the identifier, if there is one.
    pub fn get_module(&self, module_id: &str) -> (r: Option<Arc<CompiledModule>>)
        ensures
            r is Some <==> self.cached().contains_key(module_id@),
            r matches Some(artifact) ==> *artifact == self.cached()[module_id@],
    {
        cache_get(&self.modules, module_id)
    }

    /// Discards the artifact cached under the identifier and returns it, if
    /// there was one.
    pub fn remove_module(&mut self, module_id: &str) -> (r: Option<Arc<CompiledModule>>)
        ensures
            final(self).cached() == old(self).cached().remove(module_id@),
            r is Some <==> old(self).cached().contains_key(module_id@),
            r matches Some(artifact) ==> *artifact == old(self).cached()[module_id@],
            final(self).running_engine() == old(self).running_engine(),
            final(self).budget() == old(self).budget(),
            final(self).permissions() == old(self).permissions(),
            final(self).engine_config() == old(self).engine_config(),
            final(self).capabilities() == old(self).capabilities(),
    {
        cache_remove(&mut self.modules, module_id)
    }

    /// The identifiers in the cache, each once, in no particular order.
    pub fn list_modules(&self) -> (ids: Vec<String>)
        ensures
            texts(ids@).no_duplicates(),
            texts(ids@).to_set() == self.cached().dom(),
    {
        cache_keys(&self.modules)
    }
}

} // verus!
