//! Monotonic-clock readings for the render scheduler's busy waits.

use vstd::prelude::*;

verus! {

/// `std::time::Instant`, declared so that verified code can hold and hand
/// around monotonic clock readings; its contents stay opaque.
#[verifier::external_type_specification]
#[verifier::external_body]
pub struct ExInstant(std::time::Instant);

/// Relies on `std::time::Instant::now` for a reading of the monotonic clock.
/// Nothing is assumed of the value itself.
#[verifier::external_body]
pub(crate) fn instant_now() -> (r: std::time::Instant) {
    std::time::Instant::now()
}

/// Relies on `std::time::Instant::elapsed`: the microseconds that the
/// monotonic clock reports since `t`, as a 64-bit count. Nothing is assumed
/// of the value, which depends on the time of the call.
#[verifier::external_body]
pub(crate) fn micros_since(t: &std::time::Instant) -> (r: u64) {
    t.elapsed().as_micros() as u64
}

/// Relies on `std::hint::spin_loop` to ease a busy wait on the processor.
#[verifier::external_body]
pub(crate) fn spin_hint() {
    std::hint::spin_loop()
}

} // verus!
