//! The wall clock, in whole seconds since the Unix epoch.

use vstd::prelude::*;
use std::time::{Duration, SystemTime, SystemTimeError};

verus! {

/// `std::time::SystemTime`, carried through as an opaque value.
#[verifier::external_type_specification]
#[verifier::external_body]
pub struct ExSystemTime(std::time::SystemTime);

/// `std::time::SystemTimeError`, carried through as an opaque value.
#[verifier::external_type_specification]
#[verifier::external_body]
pub struct ExSystemTimeError(std::time::SystemTimeError);

/// `SystemTime::now`: the current reading of the system clock. Nothing is
/// claimed of it.
#[verifier::external_body]
fn wall_clock() -> (reading: SystemTime) {
    SystemTime::now()
}

/// `SystemTime::duration_since`, measured from `UNIX_EPOCH`: the time from the
/// epoch to `reading`, or the error for a reading before the epoch. Nothing
/// is claimed of either.
#[verifier::external_body]
fn since_epoch(reading: &SystemTime) -> (elapsed: Result<Duration, SystemTimeError>) {
    reading.duration_since(std::time::UNIX_EPOCH)
}

/// The whole seconds that a `Duration` holds: what `Duration::as_secs`
/// returns for it.
pub uninterp spec fn seconds_in(elapsed: Duration) -> u64;

/// `Duration::as_secs`: the whole seconds held by `elapsed`, any fraction of
/// a second dropped. The contract only gives that number its name.
#[verifier::external_body]
fn whole_seconds(elapsed: &Duration) -> (seconds: u64)
    ensures
        seconds == seconds_in(*elapsed),
{
    elapsed.as_secs()
}

/// The timestamp for a clock reading measured from the epoch: the whole
/// seconds of the elapsed time, and none for a reading before the epoch.
pub open spec fn timestamp_of(elapsed: Result<Duration, SystemTimeError>) -> Option<u64> {
    match elapsed {
        Ok(since) => Some(seconds_in(since)),
        Err(_) => None,
    }
}

/// Turns a clock reading measured from the epoch into a timestamp: the
/// whole seconds elapsed, or `None` when the reading lies before the epoch.
pub fn seconds_since_epoch(elapsed: Result<Duration, SystemTimeError>) -> (seconds: Option<u64>)
    ensures
        seconds == timestamp_of(elapsed),
{
    match elapsed {
        Ok(since) => Some(whole_seconds(&since)),
        Err(_) => None,
    }
}

/// The current time in whole seconds since the Unix epoch, or `None` when
/// the system clock is set before the epoch. Which reading the clock gives
/// is not for this library to say; whatever it gives, the result is the
/// timestamp of some reading measured from the epoch: a number returned is
/// the whole seconds of an elapsed time, and `None` stands for a reading
/// before the epoch.
pub fn get_timestamp() -> (seconds: Option<u64>)
    ensures
        exists|elapsed: Result<Duration, SystemTimeError>| seconds == #[trigger] timestamp_of(elapsed),
{
    let reading = wall_clock();
    let elapsed = since_epoch(&reading);
    let ghost measured = elapsed;
    let seconds = seconds_since_epoch(elapsed);
    proof {
        assert(seconds == timestamp_of(measured));
    }
    seconds
}

} // verus!
