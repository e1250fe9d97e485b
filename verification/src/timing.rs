//! Wall-clock timing through std's monotonic clock.
//!
//! A clock reading is opaque and a measured duration depends on the machine,
//! not on any argument, so neither wrapper claims anything of its result: the
//! harness is verified for every duration the clock may hand back.

use vstd::prelude::*;

verus! {

/// Declares std::time::Instant, so a clock reading can be held and passed;
/// the value itself stays opaque.
#[verifier::external_type_specification]
#[verifier::external_body]
pub struct ExInstant(std::time::Instant);

/// Relies on std::time::Instant::now: a reading of the monotonic clock.
#[verifier::external_body]
pub(crate) fn instant_now() -> std::time::Instant {
    std::time::Instant::now()
}

/// Relies on std::time::Instant::elapsed: the time since `start`, converted
/// to whole nanoseconds, saturating at `u64::MAX`.
#[verifier::external_body]
pub(crate) fn elapsed_nanos(start: &std::time::Instant) -> u64 {
    u64::try_from(start.elapsed().as_nanos()).unwrap_or(u64::MAX)
}

} // verus!
