//! Time as the cache sees it: nanoseconds counted from an origin.
//!
//! The store never reads a clock. Every operation that depends on time is
//! handed the current instant as a number, so each of them is a function
//! of its arguments. Only the shared handle reads the machine's clock.

use std::time::Duration;
use std::time::Instant;
use vstd::prelude::*;

verus! {

/// `std::time::Instant`, carried through as an opaque value.
#[verifier::external_type_specification]
#[verifier::external_body]
pub struct ExInstant(std::time::Instant);

/// `Instant::now` reads the monotonic clock. Nothing is claimed of the
/// value: it differs from call to call.
pub assume_specification[ std::time::Instant::now ]() -> (now: Instant);

/// `Instant::elapsed` gives the time that has passed since `origin`.
/// Nothing is claimed of the value: it depends on when the call is made.
pub assume_specification[ std::time::Instant::elapsed ](origin: &Instant) -> (since: Duration);

/// `Duration::as_nanos` gives the whole span in nanoseconds. The span is
/// opaque here, so nothing is claimed of the number.
pub assume_specification[ std::time::Duration::as_nanos ](span: &Duration) -> (nanos: u128);

/// The deadline of an entry that is saved at `now` and lives for `ttl`,
/// all in nanoseconds. A sum beyond the largest instant stays at the
/// largest instant.
pub open spec fn deadline_after(now: u128, ttl: u128) -> u128 {
    if now + ttl <= u128::MAX {
        (now + ttl) as u128
    } else {
        u128::MAX
    }
}

/// Computes the deadline of an entry saved at `now` with a time-to-live of
/// `ttl`.
pub fn deadline(now: u128, ttl: u128) -> (at: u128)
    ensures
        at == deadline_after(now, ttl),
{
    if ttl <= u128::MAX - now {
        now + ttl
    } else {
        u128::MAX
    }
}

/// Reads the clock: the nanoseconds that have passed since `origin`.
pub fn nanos_since(origin: &Instant) -> (now: u128) {
    origin.elapsed().as_nanos()
}

} // verus!
