//! Default values of the configuration structures.

use vstd::prelude::*;
use vstd::string::*;

verus! {

/// The pooling allocator is on by default.
pub fn pooling_allocator() -> (r: bool)
    ensures
        r,
{
    true
}

/// Default number of instance slots of the pool.
pub fn max_instances() -> (r: u32)
    ensures
        r == 1000,
{
    1000
}

/// Default linear memory per instance slot, in megabytes.
pub fn instance_memory_mb() -> (r: u32)
    ensures
        r == 64,
{
    64
}

/// Compiled modules are cached by default.
pub fn cache_compiled_modules() -> (r: bool)
    ensures
        r,
{
    true
}

/// Epoch interruption is on by default.
pub fn epoch_interruption() -> (r: bool)
    ensures
        r,
{
    true
}

/// Default fuel budget of one execution.
pub fn max_fuel() -> (r: u64)
    ensures
        r == 10_000_000,
{
    10_000_000
}

/// Default execution timeout, in milliseconds.
pub fn timeout_ms() -> (r: u64)
    ensures
        r == 100,
{
    100
}

/// Default linear memory limit of one execution, in megabytes.
pub fn max_memory_mb() -> (r: u32)
    ensures
        r == 128,
{
    128
}

/// Fuel metering is on by default.
pub fn fuel_metering() -> (r: bool)
    ensures
        r,
{
    true
}

/// Default address the server binds to.
pub fn bind_addr() -> (r: String)
    ensures
        r@ == "0.0.0.0:8080"@,
{
    String::from_str("0.0.0.0:8080")
}

/// Default request timeout, in seconds.
pub fn request_timeout_secs() -> (r: u64)
    ensures
        r == 30,
{
    30
}

/// Graceful shutdown is on by default.
pub fn graceful_shutdown() -> (r: bool)
    ensures
        r,
{
    true
}

/// Default URL prefix of the admin interface.
pub fn admin_prefix() -> (r: String)
    ensures
        r@ == "/admin"@,
{
    String::from_str("/admin")
}

} // verus!
