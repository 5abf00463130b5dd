//! The engine factory: turns the engine configuration into the shared,
//! immutable execution engine.
//!
//! The engine always meters fuel and always supports asynchronous
//! execution. With the pooling allocator the same number of slots is
//! reserved for component instances, core instances, memories and tables,
//! and one linear memory is capped at the configured number of mebibytes.

use crate::config::EngineConfig;
use crate::error::RuntimeError;
use crate::text::concat2;
use std::sync::Arc;
use vstd::prelude::*;
use vstd::string::*;

verus! {

/// `wasmtime::Engine`: the engine, carried as an opaque value.
#[verifier::external_type_specification]
#[verifier::external_body]
pub struct ExEngine(wasmtime::Engine);

/// `wasmtime::Error`: an error of the engine, carried as an opaque value.
#[verifier::external_type_specification]
#[verifier::external_body]
pub struct ExWasmtimeError(wasmtime::Error);

/// Slots that the pooling allocator reserves, and the cap on one memory.
#[derive(Debug, Clone, Copy, PartialEq, Eq, Structural)]
pub struct PoolLimits {
    pub component_instances: u32,
    pub core_instances: u32,
    pub memories: u32,
    pub tables: u32,
    pub max_memory_bytes: usize,
}

/// What an engine is built with.
#[derive(Debug, Clone, Copy, PartialEq, Eq, Structural)]
pub struct EngineSettings {
    /// Guest calls can suspend at host-call boundaries.
    pub async_support: bool,
    /// Guest code is compiled with fuel metering.
    pub consume_fuel: bool,
    /// Guest code is compiled with epoch-deadline checks.
    pub epoch_interruption: bool,
    /// Limits of the pooling allocator; `None` allocates on demand.
    pub pool: Option<PoolLimits>,
}

/// The shared execution engine together with the configuration it was built
/// from. It holds no per-execution state.
pub struct WasmEngine {
    engine: Arc<wasmtime::Engine>,
    config: EngineConfig,
}

/// Number of bytes in one mebibyte.
pub const MEBIBYTE: u64 = 1048576;

/// The settings that a configuration asks for, where the memory cap fits the
/// machine's address width.
pub open spec fn settings_of(config: EngineConfig) -> EngineSettings {
    EngineSettings {
        async_support: true,
        consume_fuel: true,
        epoch_interruption: config.epoch_interruption,
        pool: if config.pooling_allocator {
            Some(
                PoolLimits {
                    component_instances: config.max_instances,
                    core_instances: config.max_instances,
                    memories: config.max_instances,
                    tables: config.max_instances,
                    max_memory_bytes: (config.instance_memory_mb * MEBIBYTE) as usize,
                },
            )
        } else {
            None
        },
    }
}

/// Whether the settings of a configuration can be represented: without the
/// pooling allocator always, with it when the memory cap in bytes fits the
/// machine's address width.
pub open spec fn representable(config: EngineConfig) -> bool {
    config.pooling_allocator ==> config.instance_memory_mb * MEBIBYTE <= usize::MAX
}

/// The settings that an engine was built with.
pub uninterp spec fn engine_settings(engine: wasmtime::Engine) -> EngineSettings;

/// `Config::new`, the setters `async_support`, `consume_fuel`,
/// `epoch_interruption` and `allocation_strategy` of `wasmtime::Config`, the
/// setters of `wasmtime::PoolingAllocationConfig`, and `Engine::new`: builds
/// an engine with exactly these settings. Whether that succeeds is for the
/// outside crate to say.
#[verifier::external_body]
fn build_engine(settings: &EngineSettings) -> (r: Result<wasmtime::Engine, wasmtime::Error>)
    ensures
        r matches Ok(engine) ==> engine_settings(engine) == *settings,
{
    let mut config = wasmtime::Config::new();
    config.async_support(settings.async_support);
    config.consume_fuel(settings.consume_fuel);
    config.epoch_interruption(settings.epoch_interruption);
    if let Some(limits) = &settings.pool {
        let mut pool = wasmtime::PoolingAllocationConfig::default();
        pool.total_component_instances(limits.component_instances);
        pool.total_core_instances(limits.core_instances);
        pool.total_memories(limits.memories);
        pool.total_tables(limits.tables);
        pool.max_memory_size(limits.max_memory_bytes);
        config.allocation_strategy(wasmtime::InstanceAllocationStrategy::Pooling(pool));
    }
    wasmtime::Engine::new(&config)
}

/// The text that an error of the engine displays.
pub uninterp spec fn error_message(error: wasmtime::Error) -> Seq<char>;

/// `ToString::to_string` on an error of the `wasmtime` crate: the text that
/// the error displays, which depends on the error alone.
#[verifier::external_body]
pub(crate) fn error_text(e: &wasmtime::Error) -> (s: String)
    ensures
        s@ == error_message(*e),
{
    e.to_string()
}

/// `<wasmtime::Engine as Clone>::clone`: another handle to the same engine.
pub assume_specification[ <wasmtime::Engine as Clone>::clone ](e: &wasmtime::Engine) -> (r: wasmtime::Engine)
    ensures
        engine_settings(r) == engine_settings(*e),
;

/// `Engine::increment_epoch` of the `wasmtime` crate: advances the engine's
/// epoch counter by one tick.
#[verifier::external_body]
fn tick(engine: &wasmtime::Engine) {
    engine.increment_epoch()
}

impl WasmEngine {
    /// The engine was built with the settings that its configuration asks
    /// for.
    #[verifier::type_invariant]
    spec fn built_as_configured(&self) -> bool {
        engine_settings(*self.engine) == settings_of(self.config)
    }

    /// The configuration the engine was built from.
    pub closed spec fn configuration(&self) -> EngineConfig {
        self.config
    }

    /// The engine itself.
    pub closed spec fn handle(&self) -> wasmtime::Engine {
        *self.engine
    }

    /// The settings that a configuration asks for, or the configuration
    /// error where the memory cap does not fit the machine's address width.
    pub fn settings(config: &EngineConfig) -> (r: Result<EngineSettings, RuntimeError>)
        ensures
            representable(*config) ==> r == Ok::<EngineSettings, RuntimeError>(
                settings_of(*config),
            ),
            !representable(*config) ==> (r matches Err(RuntimeError::InvalidConfig { reason })
                && reason@ == "Instance memory size exceeds the address space"@),
    {
        let pool = if config.pooling_allocator {
            let bytes: u64 = (config.instance_memory_mb as u64) * MEBIBYTE;
            if bytes > usize::MAX as u64 {
                return Err(
                    RuntimeError::invalid_config("Instance memory size exceeds the address space"),
                );
            }
            Some(
                PoolLimits {
                    component_instances: config.max_instances,
                    core_instances: config.max_instances,
                    memories: config.max_instances,
                    tables: config.max_instances,
                    max_memory_bytes: bytes as usize,
                },
            )
        } else {
            None
        };
        Ok(
            EngineSettings {
                async_support: true,
                consume_fuel: true,
                epoch_interruption: config.epoch_interruption,
                pool,
            },
        )
    }

    /// Builds the engine for a configuration. It fails with a configuration
    /// error where the settings cannot be represented or the engine rejects
    /// them.
    pub fn new(config: &EngineConfig) -> (r: Result<Self, RuntimeError>)
        ensures
            r matches Ok(engine) ==> engine.configuration() == *config && representable(*config),
            r matches Err(e) ==> e is InvalidConfig,
            representable(*config) ==> (r matches Err(RuntimeError::InvalidConfig { reason })
                ==> "Failed to create Wasmtime engine: "@.is_prefix_of(reason@)),
            !representable(*config) ==> (r matches Err(RuntimeError::InvalidConfig { reason })
                && reason@ == "Instance memory size exceeds the address space"@),
    {
        let settings = match Self::settings(config) {
            Ok(settings) => settings,
            Err(e) => {
                return Err(e);
            },
        };
        match build_engine(&settings) {
            Ok(engine) => Ok(WasmEngine { engine: Arc::new(engine), config: config.clone() }),
            Err(e) => {
                let detail = error_text(&e);
                let reason = concat2("Failed to create Wasmtime engine: ", detail.as_str());
                Err(RuntimeError::InvalidConfig { reason })
            },
        }
    }

    /// The engine itself. It has the settings that the configuration asks
    /// for: it meters fuel and supports asynchronous execution.
    pub fn inner(&self) -> (engine: &wasmtime::Engine)
        ensures
            *engine == self.handle(),
            engine_settings(*engine) == settings_of(self.configuration()),
    {
        proof {
            use_type_invariant(self);
        }
        &self.engine
    }

    /// The configuration the engine was built from.
    pub fn config(&self) -> (config: &EngineConfig)
        ensures
            *config == self.configuration(),
    {
        &self.config
    }

    /// Advances the epoch by one tick. An outside driver calls this at a
    /// fixed cadence; a deadline of `n` ticks is reached after `n` calls.
    pub fn increment_epoch(&self) {
        tick(&self.engine)
    }

    /// Whether the engine allocates instances from a pool.
    pub fn is_pooling_enabled(&self) -> (r: bool)
        ensures
            r == self.configuration().pooling_allocator,
    {
        self.config.pooling_allocator
    }
}

impl Clone for WasmEngine {
    /// Another handle to the same engine, with the same configuration.
    fn clone(&self) -> (r: Self)
        ensures
            r.configuration() == self.configuration(),
    {
        proof {
            use_type_invariant(self);
        }
        WasmEngine { engine: self.engine.clone(), config: self.config.clone() }
    }
}

impl std::fmt::Debug for WasmEngine {
    /// `Formatter::debug_struct` of the standard library: the name of the
    /// type with the pooling settings of its configuration.
    #[verifier::external_body]
    fn fmt(&self, f: &mut std::fmt::Formatter<'_>) -> std::fmt::Result {
        f.debug_struct("WasmEngine")
            .field("pooling_allocator", &self.config.pooling_allocator)
            .field("max_instances", &self.config.max_instances)
            .field("instance_memory_mb", &self.config.instance_memory_mb)
            .finish_non_exhaustive()
    }
}

} // verus!
