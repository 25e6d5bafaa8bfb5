//! The wall clock, read in whole milliseconds.

use vstd::prelude::*;
use std::time::Duration;

verus! {

/// `std::time::SystemTimeError`, the error of a clock reading that lies before
/// the reference point. Nothing is known of a value of it.
#[verifier::external_type_specification]
#[verifier::external_body]
pub struct ExSystemTimeError(std::time::SystemTimeError);

/// `std::time::SystemTime::elapsed` on `std::time::UNIX_EPOCH`: the time that
/// has passed since the start of 1970 by the system's clock, or an error if
/// the clock stands before that. Nothing is claimed of the reading.
#[verifier::external_body]
fn since_unix_epoch() -> (elapsed: Result<Duration, std::time::SystemTimeError>) {
    std::time::UNIX_EPOCH.elapsed()
}

/// `std::time::Duration::as_millis`: the whole milliseconds in a duration.
/// A `Duration` is opaque here, so nothing is claimed of the number.
pub assume_specification[ Duration::as_millis ](d: &Duration) -> (ms: u128);

/// The wall clock now, in milliseconds since the start of 1970: what
/// `millis_of_reading` makes of the system's clock.
///
/// Two readings need not differ, and a later one may be smaller than an
/// earlier one if the system's clock was set back in between.
pub fn now_millis() -> (now: u64) {
    let reading: Option<u128> = match since_unix_epoch() {
        Ok(elapsed) => Some(elapsed.as_millis()),
        Err(_) => None,
    };
    millis_of_reading(reading)
}

/// The time that a reading of the clock stands for: the reading itself, in
/// whole milliseconds since the start of 1970, as far as a `u64` holds it,
/// else `u64::MAX`. A clock that stands before 1970 gives no reading, and
/// that stands for 0.
pub open spec fn reading_millis(reading: Option<u128>) -> u64 {
    match reading {
        Some(ms) => if ms > u64::MAX {
            u64::MAX
        } else {
            ms as u64
        },
        None => 0,
    }
}

/// The time that a reading of the clock stands for.
pub fn millis_of_reading(reading: Option<u128>) -> (now: u64)
    ensures
        now == reading_millis(reading),
{
    match reading {
        Some(ms) => {
            if ms > u64::MAX as u128 {
                u64::MAX
            } else {
                ms as u64
            }
        },
        None => 0,
    }
}

} // verus!
