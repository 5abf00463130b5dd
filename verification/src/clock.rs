//! The monotonic clock that stamps artifacts, log entries and executions.

use std::time::{Duration, Instant};
use vstd::prelude::*;

verus! {

/// `std::time::Instant`: a reading of the monotonic clock, carried as an
/// opaque value.
#[verifier::external_type_specification]
#[verifier::external_body]
pub struct ExInstant(Instant);

/// `Instant::now` of the standard library: the current reading of the
/// monotonic clock. Nothing is promised of its value.
pub assume_specification[ Instant::now ]() -> (t: Instant);

/// `Instant::elapsed` of the standard library: the time since the reading
/// was taken. Nothing is promised of its value.
pub assume_specification[ Instant::elapsed ](t: &Instant) -> (d: Duration);

/// `<Instant as Clone>::clone` of the standard library: the same reading.
pub assume_specification[ <Instant as Clone>::clone ](t: &Instant) -> (r: Instant)
    ensures
        r == *t,
;

} // verus!
