use vstd::prelude::*;

verus! {

#[verifier::external_type_specification]
#[verifier::external_body]
pub struct ExInstant(std::time::Instant);

/// Relies on `std::time::Instant::now`: an opaque reading of the monotonic
/// clock. The value depends on the clock, so nothing is promised of it.
#[verifier::external_body]
pub(crate) fn instant_now() -> (t: std::time::Instant) {
    std::time::Instant::now()
}

/// Relies on `std::time::Instant::elapsed` and `Duration::as_nanos`: the
/// nanoseconds since `start`, truncated into `u64`. The value depends on the
/// clock, so nothing is promised of it.
#[verifier::external_body]
pub(crate) fn elapsed_ns(start: &std::time::Instant) -> (ns: u64) {
    start.elapsed().as_nanos() as u64
}

} // verus!
