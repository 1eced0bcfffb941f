//! The monotonic clock of the standard library, as far as the timers use it.
//!
//! Nothing in this file is proved: each item says what is taken on trust
//! about `std::time`. A reading of the clock depends on the moment it is
//! taken, so no contract here promises anything about the value that comes
//! back, and two readings may differ in any way.

use std::time::Duration;
use std::time::Instant;
use vstd::prelude::*;

verus! {

/// `std::time::Instant`, a point on the monotonic clock. What is inside is
/// hidden from the proofs: a value is only stored, compared for identity in
/// contracts, and handed back to the clock.
#[verifier::external_type_specification]
#[verifier::external_body]
pub struct ExInstant(Instant);

/// `Instant::now` reads the clock. It takes no input and is trusted to
/// return; nothing is claimed about the reading.
pub assume_specification[ Instant::now ]() -> (now: Instant);

/// `Instant::elapsed` gives the time that has passed since `instant` was
/// read, and a zero duration if the clock is not past it. It is trusted to
/// return for every `instant`; nothing is claimed about the length.
pub assume_specification[ Instant::elapsed ](instant: &Instant) -> (since: Duration);

/// `Duration::as_millis` gives the whole milliseconds of `duration`. It is
/// trusted to return for every `duration`. A `Duration` is opaque to the
/// proofs, so the count is left unconstrained.
pub assume_specification[ Duration::as_millis ](duration: &Duration) -> (millis: u128);

} // verus!
