//! Trusted access to the system's monotonic clock.
//!
//! `std::time::Instant` is opaque to the verifier: nothing is assumed about
//! the values it returns, only that elapsed time can be read off as whole
//! nanoseconds. Every caller must therefore state what holds of its own
//! result whatever the clock reports.

use vstd::prelude::*;

verus! {

/// `std::time::Instant`, declared so it can stand in fields and signatures.
/// A value of it is opaque: the library only carries it between calls.
#[verifier::external_type_specification]
#[verifier::external_body]
pub struct ExInstant(std::time::Instant);

/// Relies on `std::time::Instant::now`: the current point on the monotonic
/// clock. Nothing can be promised of the value itself.
#[verifier::external_body]
pub(crate) fn instant_now() -> (t: std::time::Instant) {
    std::time::Instant::now()
}

/// Relies on `std::time::Instant::saturating_duration_since`: the time
/// elapsed from `earlier` to `later`, or zero if `earlier` is the later of
/// the two; converted to whole nanoseconds. Nothing is promised of the
/// value, since it depends on when the two instants were taken.
#[verifier::external_body]
pub(crate) fn nanos_since(later: &std::time::Instant, earlier: &std::time::Instant) -> (n: u128) {
    later.saturating_duration_since(*earlier).as_nanos()
}

} // verus!
