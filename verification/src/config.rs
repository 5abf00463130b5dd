//! Configuration of the runtime: engine-wide settings and the resource budget
//! of a single execution.

use crate::defaults;
use std::time::Duration;
use vstd::prelude::*;
use vstd::string::*;

verus! {

/// Engine-wide settings: allocation strategy, compilation cache and epoch
/// interruption.
#[derive(Debug)]
pub struct EngineConfig {
    /// Pre-reserve instance slots in a pool.
    pub pooling_allocator: bool,
    /// Number of instance, memory and table slots of the pool.
    pub max_instances: u32,
    /// Largest linear memory of one instance, in megabytes.
    pub instance_memory_mb: u32,
    /// Cache compiled modules.
    pub cache_compiled_modules: bool,
    /// Directory of the compiled-module cache.
    pub cache_dir: Option<String>,
    /// Compile guest code with epoch-deadline checks.
    pub epoch_interruption: bool,
}

/// Resource budget of one execution.
#[derive(Debug, Clone, Copy)]
pub struct ExecutionConfig {
    /// Fuel granted to the execution.
    pub max_fuel: u64,
    /// Deadline of the execution, in milliseconds (one epoch tick each).
    pub timeout_ms: u64,
    /// Largest linear memory of the execution, in megabytes.
    pub max_memory_mb: u32,
    /// Meter and limit fuel.
    pub fuel_metering: bool,
}

/// Engine settings together with the per-execution budget.
#[derive(Debug)]
pub struct RuntimeConfig {
    /// Engine-wide settings.
    pub engine: EngineConfig,
    /// Budget of each execution.
    pub execution: ExecutionConfig,
}

/// The duration of `ms` whole milliseconds.
pub uninterp spec fn millis_duration(ms: u64) -> Duration;

/// `Duration::from_millis` of the standard library: the result is the duration
/// of that many milliseconds, which depends on the argument alone.
pub assume_specification[ Duration::from_millis ](millis: u64) -> (d: Duration)
    ensures
        d == millis_duration(millis),
;

impl EngineConfig {
    /// The default settings hold exactly these values.
    pub open spec fn is_default(&self) -> bool {
        &&& self.pooling_allocator
        &&& self.max_instances == 1000
        &&& self.instance_memory_mb == 64
        &&& self.cache_compiled_modules
        &&& self.cache_dir matches Some(dir)
        &&& dir@ == "./cache"@
        &&& self.epoch_interruption
    }
}

impl Clone for EngineConfig {
    fn clone(&self) -> (r: Self)
        ensures
            r == *self,
    {
        EngineConfig {
            pooling_allocator: self.pooling_allocator,
            max_instances: self.max_instances,
            instance_memory_mb: self.instance_memory_mb,
            cache_compiled_modules: self.cache_compiled_modules,
            cache_dir: match &self.cache_dir {
                Some(dir) => Some(dir.clone()),
                None => None,
            },
            epoch_interruption: self.epoch_interruption,
        }
    }
}

impl Clone for RuntimeConfig {
    fn clone(&self) -> (r: Self)
        ensures
            r == *self,
    {
        RuntimeConfig { engine: self.engine.clone(), execution: self.execution }
    }
}

impl Default for EngineConfig {
    fn default() -> (r: Self)
        ensures
            r.is_default(),
    {
        EngineConfig {
            pooling_allocator: defaults::pooling_allocator(),
            max_instances: defaults::max_instances(),
            instance_memory_mb: defaults::instance_memory_mb(),
            cache_compiled_modules: defaults::cache_compiled_modules(),
            cache_dir: Some(String::from_str("./cache")),
            epoch_interruption: defaults::epoch_interruption(),
        }
    }
}

impl ExecutionConfig {
    /// The default budget holds exactly these values.
    pub open spec fn is_default(&self) -> bool {
        &&& self.max_fuel == 10_000_000
        &&& self.timeout_ms == 100
        &&& self.max_memory_mb == 128
        &&& self.fuel_metering
    }

    /// The timeout as a duration.
    pub fn timeout(&self) -> (d: Duration)
        ensures
            d == millis_duration(self.timeout_ms),
    {
        Duration::from_millis(self.timeout_ms)
    }
}

impl Default for ExecutionConfig {
    fn default() -> (r: Self)
        ensures
            r.is_default(),
    {
        ExecutionConfig {
            max_fuel: defaults::max_fuel(),
            timeout_ms: defaults::timeout_ms(),
            max_memory_mb: defaults::max_memory_mb(),
            fuel_metering: defaults::fuel_metering(),
        }
    }
}

impl Default for RuntimeConfig {
    fn default() -> (r: Self)
        ensures
            r.engine.is_default(),
            r.execution.is_default(),
    {
        RuntimeConfig { engine: EngineConfig::default(), execution: ExecutionConfig::default() }
    }
}

} // verus!
