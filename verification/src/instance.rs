//! The instance runner: the state machine that takes one invocation from
//! its creation to its outcome.
//!
//! A run goes through `Created`, `Linked`, `Instantiated` and `Running` and
//! ends in `Completed`, `Trapped`, `ResourceExhausted` or `Failed`. In each
//! state the machine names the one action that is due; the driver performs
//! it on the engine and reports what happened as an event. The machine
//! decides the next state and, at the end, the outcome, and it closes the
//! metrics of the execution context on every transition into a final state.
//!
//! The runner itself holds only the engine and the linkers. Everything
//! that belongs to one invocation lives in its execution context and in its
//! own `Execution` value, so one runner serves many invocations at once.

use crate::engine::{error_message, error_text};
use crate::error::RuntimeError;
use crate::linker::linker_names;
use crate::module::CompiledModule;
use crate::store::{consumed, fuel_consumed, get_remaining_fuel, store_fuel, WorkerContext};
use std::sync::Arc;
use vstd::prelude::*;
use vstd::string::*;

verus! {

/// `wasmtime::component::Linker`: the definitions that components link
/// against, carried as an opaque value.
#[verifier::external_type_specification]
#[verifier::external_body]
#[verifier::reject_recursive_types(T)]
pub struct ExComponentLinker<T>(wasmtime::component::Linker<T>);

/// How an execution that ran to its end ended.
#[derive(Debug)]
pub enum ExecutionResult {
    /// The entry point returned.
    Success,
    /// The guest trapped.
    Trap { message: String, code: Option<String> },
}

/// The kind of artifact that a run executes.
#[derive(Debug, Clone, Copy, PartialEq, Eq, Structural)]
pub enum ArtifactKind {
    /// A core module: its entry point is located and invoked.
    Core,
    /// A component: the run is complete once it is instantiated.
    Component,
}

/// State of a run.
#[derive(Debug, Clone, Copy, PartialEq, Eq, Structural)]
pub enum RunnerState {
    Created,
    Linked,
    Instantiated,
    Running,
    /// Final: the entry point returned.
    Completed,
    /// Final: the guest trapped.
    Trapped,
    /// Final: fuel or time ran out.
    ResourceExhausted,
    /// Final: the run did not get as far as invoking the entry point.
    Failed,
}

/// What the driver is to do next.
#[derive(Debug, Clone, Copy, PartialEq, Eq, Structural)]
pub enum RunnerAction {
    /// Resolve the artifact's imports against the host capabilities.
    Link,
    /// Allocate the instance.
    Instantiate,
    /// Resolve the entry point export, without parameters and results.
    LocateEntryPoint,
    /// Invoke the entry point under the fuel and epoch budget.
    Invoke,
}

/// Why a guest call ended in a trap.
#[derive(Debug, Clone, Copy, PartialEq, Eq, Structural)]
pub enum TrapKind {
    /// All fuel was consumed.
    OutOfFuel,
    /// The epoch deadline was reached.
    Interrupt,
    /// Any other fault.
    Other,
}

/// What is known of a trap.
#[derive(Debug)]
pub struct TrapReport {
    /// The text of the error.
    pub message: String,
    /// The name of the trap code, where the error carries one.
    pub code: Option<String>,
    /// The kind of the trap.
    pub kind: TrapKind,
}

/// What the driver reports after an action.
#[derive(Debug)]
pub enum RunnerEvent {
    /// Every import was resolved.
    Linked,
    /// A required import is not provided.
    LinkFailed { reason: String },
    /// The instance was allocated.
    Instantiated,
    /// No instance could be allocated.
    InstantiationFailed { reason: String },
    /// The entry point export was found.
    EntryPointFound,
    /// The entry point export is missing or has another signature.
    EntryPointMissing,
    /// The entry point returned.
    Returned,
    /// The entry point ended in a trap.
    Trapped(TrapReport),
}

/// The answer of the machine to an event.
#[derive(Debug)]
pub enum Step {
    /// The run goes on with this action.
    Next(RunnerAction),
    /// The run is over, with this outcome.
    Done(Result<ExecutionResult, RuntimeError>),
    /// The event is not expected in the current state; nothing changed.
    Rejected,
}

/// The run of one invocation.
#[derive(Debug)]
pub struct Execution {
    state: RunnerState,
    kind: ArtifactKind,
    initial_fuel: u64,
    timeout_ms: u64,
    entry_point: String,
}

/// The runner: the engine and the linkers that hold the host capabilities.
pub struct InstanceRunner {
    engine: Arc<wasmtime::Engine>,
    linker: wasmtime::Linker<WorkerContext>,
    component_linker: wasmtime::component::Linker<WorkerContext>,
}

/// No definition at all.
pub open spec fn no_names() -> Set<(Seq<char>, Seq<char>)> {
    Set::empty()
}

/// Whether a state is final.
pub open spec fn is_final(state: RunnerState) -> bool {
    state is Completed || state is Trapped || state is ResourceExhausted || state is Failed
}

/// The action that is due in a state; a final state has none.
pub open spec fn due_action(state: RunnerState) -> Option<RunnerAction> {
    match state {
        RunnerState::Created => Some(RunnerAction::Link),
        RunnerState::Linked => Some(RunnerAction::Instantiate),
        RunnerState::Instantiated => Some(RunnerAction::LocateEntryPoint),
        RunnerState::Running => Some(RunnerAction::Invoke),
        _ => None,
    }
}

/// Whether a state expects an event: each state expects the two reports of
/// the action that is due in it.
pub open spec fn expects(state: RunnerState, event: RunnerEvent) -> bool {
    match state {
        RunnerState::Created => event is Linked || event is LinkFailed,
        RunnerState::Linked => event is Instantiated || event is InstantiationFailed,
        RunnerState::Instantiated => event is EntryPointFound || event is EntryPointMissing,
        RunnerState::Running => event is Returned || event is Trapped,
        _ => false,
    }
}

/// The state after an event. An event that the state does not expect
/// leaves the state as it is.
pub open spec fn next_state(kind: ArtifactKind, state: RunnerState, event: RunnerEvent)
    -> RunnerState {
    if !expects(state, event) {
        state
    } else {
        match event {
            RunnerEvent::Linked => RunnerState::Linked,
            RunnerEvent::Instantiated => if kind is Component {
                RunnerState::Completed
            } else {
                RunnerState::Instantiated
            },
            RunnerEvent::EntryPointFound => RunnerState::Running,
            RunnerEvent::Returned => RunnerState::Completed,
            RunnerEvent::Trapped(report) => match report.kind {
                TrapKind::OutOfFuel => RunnerState::ResourceExhausted,
                TrapKind::Interrupt => RunnerState::ResourceExhausted,
                TrapKind::Other => RunnerState::Trapped,
            },
            _ => RunnerState::Failed,
        }
    }
}

/// How far a state is into the run.
pub open spec fn progress(state: RunnerState) -> nat {
    match state {
        RunnerState::Created => 0,
        RunnerState::Linked => 1,
        RunnerState::Instantiated => 2,
        RunnerState::Running => 3,
        _ => 4,
    }
}

/// Whether `outcome` is the outcome of the run that `event` ends: success
/// for a return and for an instantiated component; for a trap, fuel
/// exhaustion, a timeout of the run's deadline, or the trap with its
/// message and code; for a failed step, the error of that step.
pub open spec fn is_outcome_of(
    outcome: Result<ExecutionResult, RuntimeError>,
    event: RunnerEvent,
    timeout_ms: u64,
    entry_point: Seq<char>,
) -> bool {
    match event {
        RunnerEvent::Returned => outcome matches Ok(ExecutionResult::Success),
        RunnerEvent::Instantiated => outcome matches Ok(ExecutionResult::Success),
        RunnerEvent::Trapped(report) => match report.kind {
            TrapKind::OutOfFuel => outcome matches Err(RuntimeError::FuelExhausted),
            TrapKind::Interrupt => outcome matches Err(
                RuntimeError::ExecutionTimeout { duration_ms },
            ) && duration_ms == timeout_ms,
            TrapKind::Other => outcome matches Ok(ExecutionResult::Trap { message, code })
                && message == report.message && code == report.code,
        },
        RunnerEvent::LinkFailed { reason } => outcome matches Err(
            RuntimeError::LinkError { reason: r },
        ) && r == reason,
        RunnerEvent::InstantiationFailed { reason } => outcome matches Err(
            RuntimeError::InstantiationError { reason: r },
        ) && r == reason,
        RunnerEvent::EntryPointMissing => outcome matches Err(
            RuntimeError::EntryPointNotFound { name },
        ) && name@ == entry_point,
        _ => false,
    }
}

/// A final state is never left: it expects no event.
pub proof fn final_states_are_absorbing(kind: ArtifactKind, state: RunnerState, event: RunnerEvent)
    requires
        is_final(state),
    ensures
        !expects(state, event),
        next_state(kind, state, event) == state,
{
}

/// A run never goes back: no event leads to an earlier state, and an
/// expected event leads to a later one.
pub proof fn runs_only_advance(kind: ArtifactKind, state: RunnerState, event: RunnerEvent)
    ensures
        progress(next_state(kind, state, event)) >= progress(state),
        expects(state, event) ==> progress(next_state(kind, state, event)) > progress(state),
{
}

/// An action is due exactly in the states that are not final.
pub proof fn action_is_due_until_final(state: RunnerState)
    ensures
        due_action(state) is Some <==> !is_final(state),
{
}

/// Fuel exhaustion and a reached deadline always end a run in
/// `ResourceExhausted` with a resource-limit error, never as a generic
/// trap; every other trap ends it in `Trapped` and never as a resource
/// limit.
pub proof fn exhaustion_is_never_a_trap(
    kind: ArtifactKind,
    report: TrapReport,
    timeout_ms: u64,
    entry_point: Seq<char>,
    outcome: Result<ExecutionResult, RuntimeError>,
)
    requires
        is_outcome_of(outcome, RunnerEvent::Trapped(report), timeout_ms, entry_point),
    ensures
        report.kind is OutOfFuel ==> outcome matches Err(RuntimeError::FuelExhausted),
        report.kind is Interrupt ==> outcome matches Err(RuntimeError::ExecutionTimeout { .. }),
        !(report.kind is Other) ==> next_state(
            kind,
            RunnerState::Running,
            RunnerEvent::Trapped(report),
        ) == RunnerState::ResourceExhausted,
        report.kind is Other ==> outcome matches Ok(ExecutionResult::Trap { .. }),
        report.kind is Other ==> next_state(
            kind,
            RunnerState::Running,
            RunnerEvent::Trapped(report),
        ) == RunnerState::Trapped,
{
}

/// The kind of the trap that an error of the engine carries: fuel
/// exhaustion, an interrupt, or anything else, an error without a trap code
/// included.
pub uninterp spec fn trap_kind_of(error: wasmtime::Error) -> TrapKind;

/// The name of the trap code that an error of the engine carries, or `None`
/// where it carries none.
pub uninterp spec fn trap_code_of(error: wasmtime::Error) -> Option<Seq<char>>;

/// The text of an optional string.
pub open spec fn optional_text(text: Option<String>) -> Option<Seq<char>> {
    match text {
        Some(text) => Some(text@),
        None => None,
    }
}

/// Whether a report tells of an error of the engine: it holds the error's
/// text, the name of its trap code and the kind of its trap.
pub open spec fn reports_error(report: TrapReport, error: wasmtime::Error) -> bool {
    &&& report.message@ == error_message(error)
    &&& optional_text(report.code) == trap_code_of(error)
    &&& report.kind == trap_kind_of(error)
}

/// `Error::downcast_ref` to `wasmtime::Trap` and `ToString::to_string` on
/// an error of the `wasmtime` crate: the text of the error, the name of
/// its trap code where it carries one, and whether that code is fuel
/// exhaustion, an interrupt, or anything else. All three depend on the
/// error alone.
#[verifier::external_body]
fn trap_report(error: &wasmtime::Error) -> (report: TrapReport)
    ensures
        report.message@ == error_message(*error),
        optional_text(report.code) == trap_code_of(*error),
        report.kind == trap_kind_of(*error),
{
    let trap = error.downcast_ref::<wasmtime::Trap>();
    let kind = match trap {
        Some(wasmtime::Trap::OutOfFuel) => TrapKind::OutOfFuel,
        Some(wasmtime::Trap::Interrupt) => TrapKind::Interrupt,
        _ => TrapKind::Other,
    };
    TrapReport { message: error.to_string(), code: trap.map(|t| format!("{t:?}")), kind }
}

/// `Linker::new` of the `wasmtime` crate: a linker for the engine with
/// nothing defined in it.
#[verifier::external_body]
fn new_linker(engine: &wasmtime::Engine) -> (linker: wasmtime::Linker<WorkerContext>)
    ensures
        linker_names(linker) == no_names(),
{
    wasmtime::Linker::new(engine)
}

/// `component::Linker::new` of the `wasmtime` crate: a component linker
/// for the engine with nothing defined in it.
#[verifier::external_body]
fn new_component_linker(engine: &wasmtime::Engine) -> (linker: wasmtime::component::Linker<
    WorkerContext,
>) {
    wasmtime::component::Linker::new(engine)
}

impl ExecutionResult {
    /// Whether the entry point returned.
    pub fn is_success(&self) -> (r: bool)
        ensures
            r == (self is Success),
    {
        match self {
            ExecutionResult::Success => true,
            _ => false,
        }
    }

    /// Whether the guest trapped.
    pub fn is_trap(&self) -> (r: bool)
        ensures
            r == (self is Trap),
    {
        match self {
            ExecutionResult::Trap { .. } => true,
            _ => false,
        }
    }
}

impl RunnerEvent {
    /// The report of the link step.
    pub fn from_link(result: Result<(), wasmtime::Error>) -> (event: Self)
        ensures
            result is Ok ==> event is Linked,
            result matches Err(e) ==> event matches RunnerEvent::LinkFailed { reason }
                && reason@ == error_message(e),
    {
        match result {
            Ok(()) => RunnerEvent::Linked,
            Err(e) => RunnerEvent::LinkFailed { reason: error_text(&e) },
        }
    }

    /// The report of the instantiation step.
    pub fn from_instantiation(result: Result<(), wasmtime::Error>) -> (event: Self)
        ensures
            result is Ok ==> event is Instantiated,
            result matches Err(e) ==> event matches RunnerEvent::InstantiationFailed { reason }
                && reason@ == error_message(e),
    {
        match result {
            Ok(()) => RunnerEvent::Instantiated,
            Err(e) => RunnerEvent::InstantiationFailed { reason: error_text(&e) },
        }
    }

    /// The report of the entry point lookup.
    pub fn from_lookup(found: bool) -> (event: Self)
        ensures
            found ==> event is EntryPointFound,
            !found ==> event is EntryPointMissing,
    {
        if found {
            RunnerEvent::EntryPointFound
        } else {
            RunnerEvent::EntryPointMissing
        }
    }

    /// The report of the invocation: a return, or the trap with the text,
    /// the trap code and the trap kind of the engine's error.
    pub fn from_call(result: Result<(), wasmtime::Error>) -> (event: Self)
        ensures
            result is Ok ==> event is Returned,
            result matches Err(e) ==> event matches RunnerEvent::Trapped(report)
                && reports_error(report, e),
    {
        match result {
            Ok(()) => RunnerEvent::Returned,
            Err(e) => RunnerEvent::Trapped(trap_report(&e)),
        }
    }
}

impl Execution {
    /// The state of the run.
    pub closed spec fn current(&self) -> RunnerState {
        self.state
    }

    /// The kind of artifact that the run executes.
    pub closed spec fn artifact_kind(&self) -> ArtifactKind {
        self.kind
    }

    /// The fuel that was left when the run began.
    pub closed spec fn fuel_at_start(&self) -> u64 {
        self.initial_fuel
    }

    /// The deadline of the run, in milliseconds.
    pub closed spec fn deadline_ms(&self) -> u64 {
        self.timeout_ms
    }

    /// The name of the entry point.
    pub closed spec fn entry_name(&self) -> Seq<char> {
        self.entry_point@
    }

    /// A run in its first state. `initial_fuel` is the fuel left in the
    /// store, where fuel is metered.
    pub fn begin(
        kind: ArtifactKind,
        initial_fuel: Option<u64>,
        timeout_ms: u64,
        entry_point: &str,
    ) -> (run: Self)
        ensures
            run.current() == RunnerState::Created,
            run.artifact_kind() == kind,
            run.fuel_at_start() == match initial_fuel {
                Some(fuel) => fuel,
                None => 0,
            },
            run.deadline_ms() == timeout_ms,
            run.entry_name() == entry_point@,
    {
        let fuel = match initial_fuel {
            Some(fuel) => fuel,
            None => 0,
        };
        Execution {
            state: RunnerState::Created,
            kind,
            initial_fuel: fuel,
            timeout_ms,
            entry_point: String::from_str(entry_point),
        }
    }

    /// The state of the run.
    pub fn state(&self) -> (state: RunnerState)
        ensures
            state == self.current(),
    {
        self.state
    }

    /// Whether the run is over.
    pub fn is_finished(&self) -> (r: bool)
        ensures
            r == is_final(self.current()),
    {
        match self.state {
            RunnerState::Completed => true,
            RunnerState::Trapped => true,
            RunnerState::ResourceExhausted => true,
            RunnerState::Failed => true,
            _ => false,
        }
    }

    /// The name of the entry point.
    pub fn entry_point(&self) -> (name: &str)
        ensures
            name@ == self.entry_name(),
    {
        self.entry_point.as_str()
    }

    /// The action that is due, or `None` where the run is over.
    pub fn pending(&self) -> (action: Option<RunnerAction>)
        ensures
            action == due_action(self.current()),
    {
        match self.state {
            RunnerState::Created => Some(RunnerAction::Link),
            RunnerState::Linked => Some(RunnerAction::Instantiate),
            RunnerState::Instantiated => Some(RunnerAction::LocateEntryPoint),
            RunnerState::Running => Some(RunnerAction::Invoke),
            _ => None,
        }
    }

    /// Whether the current state expects the event.
    pub fn accepts(&self, event: &RunnerEvent) -> (r: bool)
        ensures
            r == expects(self.current(), *event),
    {
        match self.state {
            RunnerState::Created => match event {
                RunnerEvent::Linked => true,
                RunnerEvent::LinkFailed { .. } => true,
                _ => false,
            },
            RunnerState::Linked => match event {
                RunnerEvent::Instantiated => true,
                RunnerEvent::InstantiationFailed { .. } => true,
                _ => false,
            },
            RunnerState::Instantiated => match event {
                RunnerEvent::EntryPointFound => true,
                RunnerEvent::EntryPointMissing => true,
                _ => false,
            },
            RunnerState::Running => match event {
                RunnerEvent::Returned => true,
                RunnerEvent::Trapped(_) => true,
                _ => false,
            },
            _ => false,
        }
    }

    /// Takes the run one step further. `remaining_fuel` is the fuel left in
    /// the store when the event is reported.
    ///
    /// An event that the state does not expect is rejected and changes
    /// nothing. Otherwise the run moves to the next state. Where that state
    /// is final the metrics of the context are closed, with the fuel that
    /// was consumed since the run began, and the outcome is given; the log
    /// buffer is never touched.
    pub fn advance(
        &mut self,
        ctx: &mut WorkerContext,
        event: RunnerEvent,
        remaining_fuel: Option<u64>,
    ) -> (step: Step)
        ensures
            final(self).current() == next_state(old(self).artifact_kind(), old(self).current(), event),
            final(self).artifact_kind() == old(self).artifact_kind(),
            final(self).fuel_at_start() == old(self).fuel_at_start(),
            final(self).deadline_ms() == old(self).deadline_ms(),
            final(self).entry_name() == old(self).entry_name(),
            final(ctx).logs == old(ctx).logs,
            final(ctx).request_id == old(ctx).request_id,
            final(ctx).start_time == old(ctx).start_time,
            !expects(old(self).current(), event) ==> step is Rejected && *final(ctx) == *old(ctx),
            expects(old(self).current(), event) && !is_final(final(self).current()) ==> step
                == Step::Next(due_action(final(self).current())->0) && *final(ctx) == *old(ctx),
            expects(old(self).current(), event) && is_final(final(self).current()) ==> {
                &&& step matches Step::Done(outcome)
                &&& is_outcome_of(outcome, event, old(self).deadline_ms(), old(self).entry_name())
                &&& final(ctx).metrics.duration is Some
                &&& final(ctx).metrics.fuel_consumed == consumed(
                    old(self).fuel_at_start(),
                    remaining_fuel,
                )
                &&& final(ctx).metrics.memory_used_bytes == old(ctx).metrics.memory_used_bytes
            },
    {
        if !self.accepts(&event) {
            return Step::Rejected;
        }
        let outcome = match event {
            RunnerEvent::Linked => {
                self.state = RunnerState::Linked;
                return Step::Next(RunnerAction::Instantiate);
            },
            RunnerEvent::Instantiated => match self.kind {
                ArtifactKind::Component => {
                    self.state = RunnerState::Completed;
                    Ok(ExecutionResult::Success)
                },
                ArtifactKind::Core => {
                    self.state = RunnerState::Instantiated;
                    return Step::Next(RunnerAction::LocateEntryPoint);
                },
            },
            RunnerEvent::EntryPointFound => {
                self.state = RunnerState::Running;
                return Step::Next(RunnerAction::Invoke);
            },
            RunnerEvent::Returned => {
                self.state = RunnerState::Completed;
                Ok(ExecutionResult::Success)
            },
            RunnerEvent::Trapped(report) => match report.kind {
                TrapKind::OutOfFuel => {
                    self.state = RunnerState::ResourceExhausted;
                    Err(RuntimeError::FuelExhausted)
                },
                TrapKind::Interrupt => {
                    self.state = RunnerState::ResourceExhausted;
                    Err(RuntimeError::ExecutionTimeout { duration_ms: self.timeout_ms })
                },
                TrapKind::Other => {
                    self.state = RunnerState::Trapped;
                    Ok(ExecutionResult::Trap { message: report.message, code: report.code })
                },
            },
            RunnerEvent::LinkFailed { reason } => {
                self.state = RunnerState::Failed;
                Err(RuntimeError::LinkError { reason })
            },
            RunnerEvent::InstantiationFailed { reason } => {
                self.state = RunnerState::Failed;
                Err(RuntimeError::InstantiationError { reason })
            },
            RunnerEvent::EntryPointMissing => {
                self.state = RunnerState::Failed;
                Err(RuntimeError::EntryPointNotFound { name: self.entry_point.clone() })
            },
        };
        ctx.metrics.fuel_consumed = fuel_consumed(self.initial_fuel, remaining_fuel);
        ctx.finalize_metrics();
        Step::Done(outcome)
    }
}

impl InstanceRunner {
    /// The host capabilities that core modules can import from the runner,
    /// by module and name.
    pub closed spec fn capabilities(&self) -> Set<(Seq<char>, Seq<char>)> {
        linker_names(self.linker)
    }

    /// The engine that the runner was made for.
    pub closed spec fn engine_of(&self) -> wasmtime::Engine {
        *self.engine
    }

    /// The definitions that components link against.
    pub closed spec fn component_definitions(&self) -> wasmtime::component::Linker<WorkerContext> {
        self.component_linker
    }

    /// A runner for the engine, with no host capability registered.
    pub fn new(engine: Arc<wasmtime::Engine>) -> (runner: Self)
        ensures
            runner.capabilities() == no_names(),
            runner.engine_of() == *engine,
    {
        let linker = new_linker(&engine);
        let component_linker = new_component_linker(&engine);
        InstanceRunner { engine, linker, component_linker }
    }

    /// The linker for core modules, to register host capabilities in.
    pub fn linker_mut(&mut self) -> (linker: &mut wasmtime::Linker<WorkerContext>)
        ensures
            linker_names(*linker) == old(self).capabilities(),
            final(self).capabilities() == linker_names(*final(linker)),
            final(self).engine_of() == old(self).engine_of(),
            final(self).component_definitions() == old(self).component_definitions(),
    {
        &mut self.linker
    }

    /// The linker for components, to register host capabilities in: the
    /// runner's component definitions, which are whatever the caller leaves
    /// in them. Nothing else of the runner changes.
    pub fn component_linker_mut(&mut self) -> (linker: &mut wasmtime::component::Linker<
        WorkerContext,
    >)
        ensures
            *linker == old(self).component_definitions(),
            final(self).component_definitions() == *final(linker),
            final(self).capabilities() == old(self).capabilities(),
            final(self).engine_of() == old(self).engine_of(),
    {
        &mut self.component_linker
    }

    /// The linker for core modules.
    pub fn linker(&self) -> (linker: &wasmtime::Linker<WorkerContext>)
        ensures
            linker_names(*linker) == self.capabilities(),
    {
        &self.linker
    }

    /// The linker for components.
    pub fn component_linker(&self) -> (linker: &wasmtime::component::Linker<WorkerContext>)
        ensures
            *linker == self.component_definitions(),
    {
        &self.component_linker
    }

    /// The engine of the runner: the one it was made for.
    pub fn engine(&self) -> (engine: &wasmtime::Engine)
        ensures
            *engine == self.engine_of(),
    {
        &self.engine
    }

    /// Begins the run of an artifact in a store. The run remembers the
    /// fuel that is left in the store now, the deadline and the name of the
    /// entry point.
    pub fn begin(
        &self,
        artifact: &CompiledModule,
        store: &wasmtime::Store<WorkerContext>,
        entry_point: &str,
        timeout_ms: u64,
    ) -> (run: Execution)
        ensures
            run.current() == RunnerState::Created,
            run.artifact_kind() == if artifact.component() {
                ArtifactKind::Component
            } else {
                ArtifactKind::Core
            },
            run.fuel_at_start() == match store_fuel(*store) {
                Some(fuel) => fuel,
                None => 0,
            },
            run.deadline_ms() == timeout_ms,
            run.entry_name() == entry_point@,
    {
        let kind = if artifact.is_component() {
            ArtifactKind::Component
        } else {
            ArtifactKind::Core
        };
        Execution::begin(kind, get_remaining_fuel(store), timeout_ms, entry_point)
    }
}

} // verus!
