//! The clock readings the timer depends on, behind trusted wrappers.
//!
//! Gating decisions use the monotonic clock (`std::time::Instant`), measured
//! as nanosecond ticks from the instant the timer was created, so wall-clock
//! adjustments cannot cause a misfire.  Reporting uses the wall clock
//! (`std::time::SystemTime`) captured at creation.  No contract promises
//! anything about a reading's value — it depends on when the call is made —
//! so the verified code states what holds of every possible reading.

use vstd::prelude::*;

verus! {

/// `std::time::Instant`, a reading of the monotonic clock, declared so that
/// a gate can hold the instant it was created; opaque to the verifier.
#[verifier::external_type_specification]
#[verifier::external_body]
pub struct ExInstant(std::time::Instant);

/// `std::time::SystemTime`, a reading of the wall clock, declared so that a
/// gate can hold its creation time for reporting; opaque to the verifier.
#[verifier::external_type_specification]
#[verifier::external_body]
pub struct ExSystemTime(std::time::SystemTime);

/// Relies on `std::time::Instant::now`: an opaque reading of the monotonic
/// clock, used as the origin that later readings are measured from.
#[verifier::external_body]
pub(crate) fn monotonic_origin() -> std::time::Instant {
    std::time::Instant::now()
}

/// Relies on `std::time::Instant::elapsed`: the time since `origin` on the
/// monotonic clock, which never runs backwards, converted to whole
/// nanoseconds (a `u64` holds over five hundred years of them).
#[verifier::external_body]
pub(crate) fn ticks_since(origin: &std::time::Instant) -> u64 {
    origin.elapsed().as_nanos() as u64
}

/// Relies on `std::time::SystemTime::now`: an opaque reading of the wall
/// clock, taken once at construction for later reporting.
#[verifier::external_body]
pub(crate) fn wall_clock_now() -> std::time::SystemTime {
    std::time::SystemTime::now()
}

/// Relies on `std::time::SystemTime::elapsed`: `Ok` with the time since `t`
/// when the wall clock now stands at or after `t`, and `Err` when it has
/// been set back before `t`; converted to whole nanoseconds, with the error
/// — the clock anomaly — mapped to `None`.
#[verifier::external_body]
pub(crate) fn wall_elapsed_nanos(t: &std::time::SystemTime) -> Option<u64> {
    match t.elapsed() {
        Ok(d) => Some(d.as_nanos() as u64),
        Err(_) => None,
    }
}

} // verus!
