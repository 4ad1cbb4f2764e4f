//! The monotonic clock that tracked objects are stamped with.
use std::time::Duration;
use std::time::Instant;
use vstd::prelude::*;

verus! {

/// `std::time::Instant`, carried through verified code as an opaque value.
#[verifier::external_type_specification]
#[verifier::external_body]
pub struct ExInstant(Instant);

/// `Instant::now`: a reading of the monotonic clock. Nothing is stated of it: it depends
/// on the time at which it is called.
#[verifier::external_body]
pub(crate) fn instant_now() -> (now: Instant) {
    Instant::now()
}

/// `Instant::elapsed`: the time that has passed since `start`. Nothing is stated of it:
/// it depends on the time at which it is called.
#[verifier::external_body]
pub(crate) fn instant_elapsed(start: &Instant) -> (elapsed: Duration) {
    start.elapsed()
}

/// `Duration::as_nanos`: the whole number of nanoseconds in `d`. `Duration` is opaque to
/// Verus, so the result is not tied to `d` by a clause.
#[verifier::external_body]
pub(crate) fn duration_as_nanos(d: &Duration) -> (nanos: u128) {
    d.as_nanos()
}

} // verus!
