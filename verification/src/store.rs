//! The execution context: the isolated state of one invocation. It holds
//! the request identifier, the append-only log buffer and the metrics, and
//! lives inside the store that also carries the fuel counter and the epoch
//! deadline of the invocation.

use crate::config::ExecutionConfig;
use crate::engine::{engine_settings, error_text, WasmEngine};
use crate::error::RuntimeError;
use crate::text::concat2;
use std::time::{Duration, Instant};
use vstd::prelude::*;
use vstd::string::*;

verus! {

/// `wasmtime::Store`: the store of one invocation, carried as an opaque
/// value.
#[verifier::external_type_specification]
#[verifier::external_body]
#[verifier::reject_recursive_types(T)]
pub struct ExStore<T>(wasmtime::Store<T>);

/// Level of a guest log entry.
#[derive(Debug, Clone, Copy, PartialEq, Eq, Structural)]
pub enum LogLevel {
    Debug,
    Info,
    Warn,
    Error,
}

/// One entry of the log buffer.
#[derive(Debug, Clone)]
pub struct LogEntry {
    /// Level of the entry.
    pub level: LogLevel,
    /// Text of the entry.
    pub message: String,
    /// When the entry was recorded.
    pub timestamp: Instant,
}

/// What one execution used.
#[derive(Debug, Clone)]
pub struct ExecutionMetrics {
    /// Fuel that the guest consumed.
    pub fuel_consumed: u64,
    /// Linear memory in use, in bytes.
    pub memory_used_bytes: usize,
    /// Time from the creation of the context to the end of the execution;
    /// `None` until the execution has ended.
    pub duration: Option<Duration>,
}

/// The state of one invocation. Exactly one execution uses a context.
pub struct WorkerContext {
    /// Identifier of the request, for tracing.
    pub request_id: String,
    /// Entries that the guest logged, oldest first.
    pub logs: Vec<LogEntry>,
    /// What the execution used.
    pub metrics: ExecutionMetrics,
    /// When the context was created.
    pub start_time: Instant,
}

/// The fuel left in a store: `None` where the engine does not meter fuel.
pub uninterp spec fn store_fuel(store: wasmtime::Store<WorkerContext>) -> Option<u64>;

/// The epoch deadline last set on a store, in ticks beyond the epoch at
/// which it was set; `None` where none was set.
pub uninterp spec fn store_deadline(store: wasmtime::Store<WorkerContext>) -> Option<u64>;

/// The execution context that a store carries.
pub uninterp spec fn store_context(store: wasmtime::Store<WorkerContext>) -> WorkerContext;

/// `Store::new` of the `wasmtime` crate: a store for the engine that carries
/// the context. No deadline is set on a new store, and it holds no fuel
/// yet: zero units where the engine meters fuel.
#[verifier::external_body]
fn new_store(engine: &wasmtime::Engine, context: WorkerContext) -> (store: wasmtime::Store<
    WorkerContext,
>)
    ensures
        store_context(store) == context,
        store_deadline(store) is None,
        store_fuel(store) == if engine_settings(*engine).consume_fuel {
            Some(0u64)
        } else {
            None
        },
{
    wasmtime::Store::new(engine, context)
}

/// `Store::set_fuel` of the `wasmtime` crate: on success the store holds
/// exactly this much fuel; it fails exactly where the engine does not meter
/// fuel, and then the store is unchanged. Context and deadline are kept
/// either way.
#[verifier::external_body]
fn set_fuel(store: &mut wasmtime::Store<WorkerContext>, fuel: u64) -> (r: Result<
    (),
    wasmtime::Error,
>)
    ensures
        r is Ok <==> store_fuel(*old(store)) is Some,
        r is Ok ==> store_fuel(*final(store)) == Some(fuel),
        r is Err ==> store_fuel(*final(store)) == store_fuel(*old(store)),
        store_context(*final(store)) == store_context(*old(store)),
        store_deadline(*final(store)) == store_deadline(*old(store)),
{
    store.set_fuel(fuel)
}

/// `Store::get_fuel` of the `wasmtime` crate: the fuel left in the store,
/// or an error where the engine does not meter fuel.
#[verifier::external_body]
fn get_fuel(store: &wasmtime::Store<WorkerContext>) -> (r: Result<u64, wasmtime::Error>)
    ensures
        match r {
            Ok(fuel) => store_fuel(*store) == Some(fuel),
            Err(_) => store_fuel(*store) is None,
        },
{
    store.get_fuel()
}

/// `Store::set_epoch_deadline` of the `wasmtime` crate: sets the deadline
/// to this many ticks beyond the current epoch. Context and fuel are kept.
/// The engine adds the ticks to its epoch, which counts the ticks since the
/// engine was built; the bound on the ticks keeps that sum within 64 bits
/// for every epoch below 2^63.
#[verifier::external_body]
fn set_epoch_deadline(store: &mut wasmtime::Store<WorkerContext>, ticks: u64)
    requires
        ticks <= MAX_DEADLINE_TICKS,
    ensures
        store_deadline(*final(store)) == Some(ticks),
        store_context(*final(store)) == store_context(*old(store)),
        store_fuel(*final(store)) == store_fuel(*old(store)),
{
    store.set_epoch_deadline(ticks)
}

/// The largest deadline that is set on a store, in ticks.
pub const MAX_DEADLINE_TICKS: u64 = 9223372036854775807;

/// The deadline of an execution, in ticks: one tick for each millisecond of
/// its timeout, and no more than the largest deadline.
pub open spec fn deadline_ticks(timeout_ms: u64) -> u64 {
    if timeout_ms <= MAX_DEADLINE_TICKS {
        timeout_ms
    } else {
        MAX_DEADLINE_TICKS
    }
}

/// Fuel consumed since `initial` units were left: the difference to what is
/// left now, and zero where more is left than at the start. Where fuel is
/// not metered nothing counts as left.
pub open spec fn consumed(initial: u64, remaining: Option<u64>) -> u64 {
    let left = match remaining {
        Some(left) => left,
        None => 0,
    };
    if initial >= left {
        (initial - left) as u64
    } else {
        0
    }
}

/// Fuel consumption never exceeds the fuel that was there at the start.
pub proof fn consumption_is_bounded(initial: u64, remaining: Option<u64>)
    ensures
        consumed(initial, remaining) <= initial,
        remaining matches Some(left) ==> (left <= initial ==> consumed(initial, remaining) + left
            == initial),
        remaining matches Some(left) ==> (left >= initial ==> consumed(initial, remaining) == 0),
{
}

/// A run that leaves some of its fuel, but not all of it, has consumed more
/// than nothing and less than it started with.
pub proof fn partial_consumption_lies_strictly_between(initial: u64, left: u64)
    requires
        0 < left < initial,
    ensures
        0 < consumed(initial, Some(left)) < initial,
        consumed(initial, Some(left)) + left == initial,
{
}

impl LogLevel {
    /// The name of the level, in capitals.
    pub open spec fn name(&self) -> Seq<char> {
        match self {
            LogLevel::Debug => "DEBUG"@,
            LogLevel::Info => "INFO"@,
            LogLevel::Warn => "WARN"@,
            LogLevel::Error => "ERROR"@,
        }
    }

    /// The name of the level, in capitals.
    pub fn to_string(&self) -> (s: String)
        ensures
            s@ == self.name(),
    {
        match self {
            LogLevel::Debug => String::from_str("DEBUG"),
            LogLevel::Info => String::from_str("INFO"),
            LogLevel::Warn => String::from_str("WARN"),
            LogLevel::Error => String::from_str("ERROR"),
        }
    }
}

impl ExecutionMetrics {
    /// Nothing was used yet and the execution has not ended.
    pub open spec fn is_initial(&self) -> bool {
        self.fuel_consumed == 0 && self.memory_used_bytes == 0 && self.duration is None
    }
}

impl Default for ExecutionMetrics {
    fn default() -> (m: Self)
        ensures
            m.is_initial(),
    {
        ExecutionMetrics { fuel_consumed: 0, memory_used_bytes: 0, duration: None }
    }
}

impl WorkerContext {
    /// The context was just created for this request: no entry is logged
    /// and the metrics are initial.
    pub open spec fn is_fresh(&self, request_id: Seq<char>) -> bool {
        self.request_id@ == request_id && self.logs@.len() == 0 && self.metrics.is_initial()
    }

    /// The log of `self` is the log of `before` with entries added at its
    /// end: no entry was removed or changed.
    pub open spec fn extends_log_of(&self, before: &WorkerContext) -> bool {
        before.logs@.is_prefix_of(self.logs@)
    }

    /// A context for the request, starting its clock now.
    pub fn new(request_id: String) -> (ctx: Self)
        ensures
            ctx.is_fresh(request_id@),
    {
        WorkerContext {
            request_id,
            logs: Vec::new(),
            metrics: ExecutionMetrics::default(),
            start_time: Instant::now(),
        }
    }

    /// Appends an entry, stamped with the current time, to the log buffer.
    pub fn log(&mut self, level: LogLevel, message: String)
        ensures
            final(self).logs@.len() == old(self).logs@.len() + 1,
            final(self).logs@.drop_last() == old(self).logs@,
            final(self).logs@.last().level == level,
            final(self).logs@.last().message == message,
            final(self).request_id == old(self).request_id,
            final(self).metrics == old(self).metrics,
            final(self).start_time == old(self).start_time,
    {
        self.logs.push(LogEntry { level, message, timestamp: Instant::now() });
        assert(self.logs@.drop_last() =~= old(self).logs@);
    }

    /// Time since the context was created.
    pub fn elapsed(&self) -> Duration {
        self.start_time.elapsed()
    }

    /// Ends the execution in the metrics: the first call records the time
    /// since the context was created; a later call changes nothing.
    pub fn finalize_metrics(&mut self)
        ensures
            final(self).metrics.duration is Some,
            old(self).metrics.duration is Some ==> final(self).metrics == old(self).metrics,
            final(self).metrics.fuel_consumed == old(self).metrics.fuel_consumed,
            final(self).metrics.memory_used_bytes == old(self).metrics.memory_used_bytes,
            final(self).request_id == old(self).request_id,
            final(self).logs == old(self).logs,
            final(self).start_time == old(self).start_time,
    {
        if self.metrics.duration.is_none() {
            self.metrics.duration = Some(self.start_time.elapsed());
        }
    }
}

/// Fuel consumed since `initial` units were left, given what is left now.
pub fn fuel_consumed(initial_fuel: u64, remaining: Option<u64>) -> (used: u64)
    ensures
        used == consumed(initial_fuel, remaining),
{
    let left = match remaining {
        Some(left) => left,
        None => 0,
    };
    if initial_fuel >= left {
        initial_fuel - left
    } else {
        0
    }
}

/// Creates the store of one invocation: a fresh context for the request,
/// the fuel budget where fuel is metered, and the deadline of one tick per
/// millisecond of the timeout where the engine interrupts on epochs.
///
/// Installing fuel fails only on an engine that does not meter fuel, and
/// that would be a configuration error. The engines of this runtime always
/// meter fuel, so the store is always created.
pub fn create_store(engine: &WasmEngine, config: &ExecutionConfig, request_id: String) -> (r:
    Result<wasmtime::Store<WorkerContext>, RuntimeError>)
    ensures
        r matches Ok(store) && {
            &&& store_context(store).is_fresh(request_id@)
            &&& store_fuel(store) == Some(
                if config.fuel_metering {
                    config.max_fuel
                } else {
                    0
                },
            )
            &&& store_deadline(store) == if engine.configuration().epoch_interruption {
                Some(deadline_ticks(config.timeout_ms))
            } else {
                None
            }
        },
{
    let context = WorkerContext::new(request_id);
    let mut store = new_store(engine.inner(), context);
    if config.fuel_metering {
        match set_fuel(&mut store, config.max_fuel) {
            Ok(()) => {},
            Err(e) => {
                let detail = error_text(&e);
                return Err(
                    RuntimeError::InvalidConfig {
                        reason: concat2("Failed to set fuel: ", detail.as_str()),
                    },
                );
            },
        }
    }
    if engine.config().epoch_interruption {
        let ticks = if config.timeout_ms <= MAX_DEADLINE_TICKS {
            config.timeout_ms
        } else {
            MAX_DEADLINE_TICKS
        };
        set_epoch_deadline(&mut store, ticks);
    }
    Ok(store)
}

/// The fuel left in a store, or `None` where fuel is not metered.
pub fn get_remaining_fuel(store: &wasmtime::Store<WorkerContext>) -> (fuel: Option<u64>)
    ensures
        fuel == store_fuel(*store),
{
    match get_fuel(store) {
        Ok(fuel) => Some(fuel),
        Err(_) => None,
    }
}

/// Fuel that the store's guest consumed since `initial_fuel` units were
/// left.
pub fn calculate_fuel_consumed(initial_fuel: u64, store: &wasmtime::Store<WorkerContext>) -> (used:
    u64)
    ensures
        used == consumed(initial_fuel, store_fuel(*store)),
{
    fuel_consumed(initial_fuel, get_remaining_fuel(store))
}

} // verus!
