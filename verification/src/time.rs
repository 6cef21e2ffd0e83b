//! The system clock, as the activity timestamps use it.

use std::time::{Duration, SystemTime, SystemTimeError, UNIX_EPOCH};

use vstd::prelude::*;

use crate::errors::TimestampError;

verus! {

#[verifier::external_type_specification]
#[verifier::external_body]
pub struct ExSystemTime(std::time::SystemTime);

#[verifier::external_type_specification]
#[verifier::external_body]
pub struct ExSystemTimeError(std::time::SystemTimeError);

/// The whole seconds of a duration, as `Duration::as_secs` gives them.
pub uninterp spec fn duration_secs(d: Duration) -> u64;

/// `Duration::as_secs`: the number of whole seconds in the duration.
#[verifier::external_body]
pub(crate) fn duration_as_secs(d: &Duration) -> (secs: u64)
    ensures
        secs == duration_secs(*d),
{
    d.as_secs()
}

/// `SystemTime::now`: the current time of the system clock. Nothing is stated
/// of the value, which depends on when the call is made.
#[verifier::external_body]
fn system_now() -> SystemTime {
    SystemTime::now()
}

/// `SystemTime::duration_since(UNIX_EPOCH)`: the time elapsed since the Unix
/// epoch, or an error when the clock is set before it. Nothing is stated of the
/// value, which depends on the clock.
#[verifier::external_body]
fn since_unix_epoch(t: SystemTime) -> Result<Duration, SystemTimeError> {
    t.duration_since(UNIX_EPOCH)
}

/// The whole seconds elapsed since the Unix epoch, from what the clock gave:
/// the seconds of the elapsed time, or the clock's error.
pub fn timestamp_from_elapsed(elapsed: Result<Duration, SystemTimeError>) -> (res: Result<u64, TimestampError>)
    ensures
        elapsed matches Ok(d) ==> res == Ok::<u64, TimestampError>(duration_secs(d)),
        elapsed matches Err(x) ==> res == Err::<u64, TimestampError>(TimestampError::SystemTime(x)),
{
    match elapsed {
        Ok(d) => Ok(duration_as_secs(&d)),
        Err(e) => Err(TimestampError::SystemTime(e)),
    }
}

/// The current Unix time in whole seconds, or the error of a clock set before
/// the epoch: the clock is read, then `timestamp_from_elapsed` does the rest.
pub fn get_current_timestamp() -> (res: Result<u64, TimestampError>)
    ensures
        res matches Err(e) ==> e is SystemTime,
{
    let now = system_now();
    timestamp_from_elapsed(since_unix_epoch(now))
}

} // verus!
