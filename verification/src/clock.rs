use std::time::Instant;
use vstd::prelude::*;

verus! {

#[verifier::external_type_specification]
#[verifier::external_body]
pub struct ExInstant(Instant);

/// `Instant` is `Copy`: a clone is the same reading.
pub assume_specification[ <Instant as Clone>::clone ](instant: &Instant) -> (c: Instant)
    ensures
        c == *instant,
;

/// A reading of the monotonic clock (`Instant::now`). Nothing is claimed of
/// it: it is the machine's clock.
#[verifier::external_body]
pub(crate) fn clock_reading() -> Instant {
    Instant::now()
}

/// The whole milliseconds that have passed since `start` on the monotonic
/// clock (`Instant::elapsed`), held at `u64::MAX`. Nothing is claimed of the
/// value: it is the machine's clock.
#[verifier::external_body]
pub(crate) fn millis_since(start: &Instant) -> u64 {
    u64::try_from(start.elapsed().as_millis()).unwrap_or(u64::MAX)
}

} // verus!
