//! The monotonic clock the rate limiter reads.
use vstd::prelude::*;

verus! {

/// `std::time::Instant`, carried through opaquely.
#[verifier::external_type_specification]
#[verifier::external_body]
pub struct ExInstant(std::time::Instant);

/// `Instant::now()`: the current instant of the monotonic clock.
#[verifier::external_body]
pub(crate) fn instant_now() -> (now: std::time::Instant)
{
    std::time::Instant::now()
}

/// `Instant::elapsed().as_nanos()`: nanoseconds since `origin`. It depends on
/// the clock; nothing is stated of its value.
#[verifier::external_body]
pub(crate) fn nanos_since(origin: &std::time::Instant) -> (nanos: u128)
{
    origin.elapsed().as_nanos()
}

} // verus!
