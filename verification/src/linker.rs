//! Registration of the host capabilities in a linker, under the names of
//! the guest interface: the guest imports `log` from `env` and exports its
//! linear memory as `memory`.

use crate::engine::error_text;
use crate::error::RuntimeError;
use crate::instance::InstanceRunner;
use crate::logging::LoggingHost;
use crate::store::WorkerContext;
use crate::text::concat2;
use std::sync::Arc;
use vstd::prelude::*;
use vstd::string::*;

verus! {

/// `wasmtime::Linker`: the definitions that core modules link against,
/// carried as an opaque value.
#[verifier::external_type_specification]
#[verifier::external_body]
#[verifier::reject_recursive_types(T)]
pub struct ExLinker<T>(wasmtime::Linker<T>);

/// What a linker defines: the module and name of each definition.
pub uninterp spec fn linker_names(linker: wasmtime::Linker<WorkerContext>) -> Set<
    (Seq<char>, Seq<char>),
>;

/// The module and name under which guests import the logging capability.
pub open spec fn log_import() -> (Seq<char>, Seq<char>) {
    ("env"@, "log"@)
}

/// Every host capability that core modules can import: logging.
pub open spec fn all_capabilities() -> Set<(Seq<char>, Seq<char>)> {
    Set::empty().insert(log_import())
}

/// `Linker::func_wrap` of the `wasmtime` crate, with `Caller::get_export`,
/// `Extern::into_memory` and `Memory::data_and_store_mut` inside the host
/// function: defines, under the given module and name, a host function of
/// three 32-bit integers that hands each call to the logging host together
/// with the guest's exported memory of the given name, if there is one. It
/// succeeds wherever the linker has no definition of that module and name
/// yet, and a failure leaves the linker as it was.
#[verifier::external_body]
fn define_log(
    linker: &mut wasmtime::Linker<WorkerContext>,
    module: &str,
    name: &str,
    memory: &'static str,
) -> (r: Result<(), wasmtime::Error>)
    ensures
        !linker_names(*old(linker)).contains((module@, name@)) ==> r is Ok,
        r is Ok ==> linker_names(*final(linker)) == linker_names(*old(linker)).insert(
            (module@, name@),
        ),
        r is Err ==> linker_names(*final(linker)) == linker_names(*old(linker)),
{
    let log = move |mut caller: wasmtime::Caller<'_, WorkerContext>, level: i32, ptr: i32, len: i32| {
        match caller.get_export(memory).and_then(wasmtime::Extern::into_memory) {
            Some(exported) => {
                let (data, ctx) = exported.data_and_store_mut(&mut caller);
                LoggingHost::guest_log(ctx, level, ptr, len, Some(data))
            },
            None => LoggingHost::guest_log(caller.data_mut(), level, ptr, len, None),
        }
    };
    linker.func_wrap(module, name, log).map(|_| ())
}

/// Registers the logging capability: the guest import `env.log(level, ptr,
/// len)`, which reads the message from the guest's export `memory`. It
/// succeeds wherever the linker does not define that import yet; a failed
/// registration is a configuration error and leaves the linker as it was.
pub fn register_logging(linker: &mut wasmtime::Linker<WorkerContext>) -> (r: Result<
    (),
    RuntimeError,
>)
    ensures
        !linker_names(*old(linker)).contains(log_import()) ==> r is Ok,
        r is Ok ==> linker_names(*final(linker)) == linker_names(*old(linker)).insert(
            log_import(),
        ),
        r is Err ==> linker_names(*final(linker)) == linker_names(*old(linker)),
        r matches Err(e) ==> e matches RuntimeError::InvalidConfig { reason }
            && "Failed to register log function: "@.is_prefix_of(reason@),
{
    match define_log(linker, "env", "log", "memory") {
        Ok(()) => Ok(()),
        Err(e) => {
            let detail = error_text(&e);
            Err(
                RuntimeError::InvalidConfig {
                    reason: concat2("Failed to register log function: ", detail.as_str()),
                },
            )
        },
    }
}

/// Registers every host capability that core modules can import.
pub fn register_all(linker: &mut wasmtime::Linker<WorkerContext>) -> (r: Result<(), RuntimeError>)
    ensures
        !linker_names(*old(linker)).contains(log_import()) ==> r is Ok,
        r is Ok ==> linker_names(*final(linker)) == linker_names(*old(linker)).insert(
            log_import(),
        ),
        r is Err ==> linker_names(*final(linker)) == linker_names(*old(linker)),
        r matches Err(e) ==> e matches RuntimeError::InvalidConfig { reason }
            && "Failed to register log function: "@.is_prefix_of(reason@),
{
    register_logging(linker)
}

/// A runner for the engine with every host capability registered.
pub fn create_instance_runner(engine: Arc<wasmtime::Engine>) -> (r: Result<
    InstanceRunner,
    RuntimeError,
>)
    ensures
        r matches Ok(runner) && runner.capabilities() == all_capabilities() && runner.engine_of()
            == *engine,
{
    let mut runner = InstanceRunner::new(engine);
    match register_all(runner.linker_mut()) {
        Ok(()) => Ok(runner),
        Err(e) => Err(e),
    }
}

} // verus!
