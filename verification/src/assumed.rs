//! What this library takes on trust from the standard library. Nothing here
//! is proved: each contract restates the documented behaviour of the
//! function it names.

use std::time::{Duration, Instant};
use vstd::prelude::*;

verus! {

/// `std::time::Instant`, a reading of the monotonic clock. Nothing is known
/// of what a reading holds.
#[verifier::external_type_specification]
#[verifier::external_body]
pub struct ExInstant(std::time::Instant);

/// `Instant::now` reads the monotonic clock. Nothing is claimed of the
/// reading.
pub assume_specification[ Instant::now ]() -> (reading: Instant)
;

/// `Instant::elapsed` gives the time that has passed since the reading was
/// taken. Nothing is claimed of the amount.
pub assume_specification[ Instant::elapsed ](reading: &Instant) -> (span: Duration)
;

/// `Duration::as_nanos` gives the whole span in nanoseconds. Nothing is
/// claimed of the number.
pub assume_specification[ Duration::as_nanos ](span: &Duration) -> (nanos: u128)
;

/// `std::hint::black_box` hands its argument back unchanged, while the
/// compiler must assume that the value was used.
pub assume_specification<T>[ std::hint::black_box::<T> ](dummy: T) -> (same: T)
    ensures
        same == dummy,
;

/// `String::push` appends one character to the end of the string.
pub assume_specification[ String::push ](text: &mut String, ch: char)
    ensures
        final(text)@ == old(text)@.push(ch),
;

} // verus!
