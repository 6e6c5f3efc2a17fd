//! The wall clock that stamps each message.
//!
//! The clock is the one thing here that is not a function of the caller's input, and
//! vstd says nothing about the standard library's time types. They are declared below.
//! Nothing is claimed about what the clock reads. The milliseconds in a duration depend
//! on the duration alone: they get a name, `millis_in`, so that the timestamp made from
//! a reading is stated and proved for every reading.

use crate::error::DoryError;
use crate::wire::{wrap_signed, wrap_to_i64};
use std::time::Duration;
use std::time::SystemTime;
use std::time::SystemTimeError;
use vstd::prelude::*;

verus! {

/// `std::time::SystemTime`, an opaque point in time.
#[verifier::external_type_specification]
#[verifier::external_body]
pub struct ExSystemTime(SystemTime);

/// `std::time::SystemTimeError`, the opaque error of `SystemTime::duration_since`.
#[verifier::external_type_specification]
#[verifier::external_body]
pub struct ExSystemTimeError(SystemTimeError);

/// `SystemTime::now` reads the system clock. Nothing is assumed about the reading.
pub assume_specification[ SystemTime::now ]() -> (now: SystemTime);

/// The whole milliseconds in `elapsed`, as `Duration::as_millis` counts them: the
/// duration rounded down to a millisecond.
pub uninterp spec fn millis_in(elapsed: Duration) -> u128;

/// `Duration::as_millis` gives the whole milliseconds in a duration. The number depends
/// on the duration alone; it is assumed to be `millis_in` of it, and nothing else is
/// assumed about it.
pub assume_specification[ Duration::as_millis ](elapsed: &Duration) -> (millis: u128)
    ensures
        millis == millis_in(*elapsed),
;

/// `SystemTime::duration_since`, measured from `std::time::UNIX_EPOCH`: the time elapsed
/// since the epoch, or an error when `now` lies before it. Nothing is assumed about
/// which of the two comes back.
#[verifier::external_body]
fn since_unix_epoch(now: &SystemTime) -> (reading: Result<Duration, SystemTimeError>) {
    now.duration_since(std::time::UNIX_EPOCH)
}

/// Turns a reading of the clock, as `SystemTime::duration_since` hands it out, into a
/// timestamp: the whole milliseconds of the elapsed time, as an eight-byte signed field
/// holds them. Up to `i64::MAX` that is the number itself.
///
/// A reading fails in one way only, and it is reported as `ClockBeforeEpoch`.
pub fn timestamp_from_reading(reading: Result<Duration, SystemTimeError>) -> (r: Result<
    i64,
    DoryError,
>)
    ensures
        match reading {
            Ok(elapsed) => {
                &&& r is Ok
                &&& r->Ok_0 == wrap_signed(millis_in(elapsed) as int, 8)
                &&& millis_in(elapsed) <= i64::MAX ==> r->Ok_0 == millis_in(elapsed)
            },
            Err(_) => r == Err::<i64, DoryError>(DoryError::ClockBeforeEpoch),
        },
{
    match reading {
        Ok(elapsed) => Ok(wrap_to_i64(elapsed.as_millis())),
        Err(_) => Err(DoryError::ClockBeforeEpoch),
    }
}

/// The current time in milliseconds since the Unix epoch: `timestamp_from_reading` on a
/// fresh reading of the clock.
///
/// The only failure is a clock that reads a time before the epoch. Which time is read
/// is the clock's affair, and nothing is claimed about it.
pub fn get_time_miliseconds() -> (r: Result<i64, DoryError>)
    ensures
        r matches Err(e) ==> e == DoryError::ClockBeforeEpoch,
{
    let now = SystemTime::now();
    timestamp_from_reading(since_unix_epoch(&now))
}

} // verus!
