//! Trusted access to the process clocks. Timestamps are read here, behind
//! contracts that promise nothing of the values: everything computed from a
//! timestamp is verified for every value the clock could hand back.

use vstd::prelude::*;

verus! {

/// `std::time::Instant`, declared so that timer handles can hold the opaque
/// monotonic timestamps that only the standard library can produce.
#[verifier::external_type_specification]
#[verifier::external_body]
pub struct ExInstant(std::time::Instant);

/// Relies on `std::time::SystemTime::now`: the current wall-clock time, read
/// as whole seconds since the Unix epoch (zero if the clock precedes it).
/// The result depends on the machine's clock, so nothing is promised of it.
#[verifier::external_body]
pub(crate) fn now_epoch_seconds() -> u64 {
    std::time::SystemTime::now()
        .duration_since(std::time::SystemTime::UNIX_EPOCH)
        .map_or(0, |elapsed| elapsed.as_secs())
}

/// Relies on `std::time::Instant::now`: an opaque monotonic timestamp.
/// Nothing is promised of the value.
#[verifier::external_body]
pub(crate) fn instant_now() -> std::time::Instant {
    std::time::Instant::now()
}

/// Relies on `std::time::Instant::duration_since`, which saturates to a zero
/// duration when `end` precedes `start`; the elapsed time is read as whole
/// milliseconds. Nothing is promised of the value.
#[verifier::external_body]
pub(crate) fn millis_since(start: &std::time::Instant, end: &std::time::Instant) -> u128 {
    end.duration_since(*start).as_millis()
}

} // verus!
