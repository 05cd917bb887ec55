//! The wall clock, in whole seconds since the start of 1970.

use vstd::prelude::*;
use std::time::{Duration, SystemTime, SystemTimeError};

verus! {

#[verifier::external_type_specification]
#[verifier::external_body]
pub struct ExSystemTime(SystemTime);

#[verifier::external_type_specification]
#[verifier::external_body]
pub struct ExSystemTimeError(SystemTimeError);

/// The clock cannot be used to time a process.
#[derive(PartialEq, Eq, Clone, Copy, Debug, Structural)]
pub enum ClockError {
    /// The clock reads a time before the start of 1970.
    BeforeEpoch,
}

/// `SystemTime::now`: the present reading of the wall clock. Nothing is
/// claimed of it.
#[verifier::external_body]
fn system_now() -> (now: SystemTime) {
    SystemTime::now()
}

/// `SystemTime::duration_since`, taken from the start of 1970: how long
/// after it a reading lies, or an error for a reading before it. Nothing is
/// claimed of which it is.
#[verifier::external_body]
fn since_epoch(reading: &SystemTime) -> (elapsed: Result<Duration, SystemTimeError>) {
    reading.duration_since(SystemTime::UNIX_EPOCH)
}

/// The whole seconds that a duration holds.
pub uninterp spec fn whole_seconds_of(elapsed: Duration) -> u64;

/// `Duration::as_secs`: the whole seconds of a duration. The number depends
/// on the duration alone; it is claimed to be `whole_seconds_of` of it, and
/// nothing else.
#[verifier::external_body]
fn whole_seconds(elapsed: &Duration) -> (seconds: u64)
    ensures
        seconds == whole_seconds_of(*elapsed),
{
    elapsed.as_secs()
}

/// Reads the wall clock. Returns the whole seconds since the start of 1970,
/// or the error for a clock that reads a time before it.
pub fn get_sys_time_in_secs() -> (r: Result<u64, ClockError>) {
    let now = system_now();
    seconds_since_epoch(since_epoch(&now))
}

/// What a distance from the start of 1970 comes to: its whole seconds where
/// the clock reads a time at or after the start, and the error where it
/// reads a time before it.
pub open spec fn reading(elapsed: Result<Duration, SystemTimeError>) -> Result<u64, ClockError> {
    match elapsed {
        Ok(distance) => Ok(whole_seconds_of(distance)),
        Err(_) => Err(ClockError::BeforeEpoch),
    }
}

/// The whole seconds from the start of 1970 to a reading of the clock that
/// lies at or after it. A reading before it cannot time a process and is no
/// input of this function: the caller tests for it and gives up.
pub fn seconds_after_epoch(elapsed: Result<Duration, SystemTimeError>) -> (r: u64)
    requires
        elapsed is Ok,
    ensures
        r == whole_seconds_of(elapsed->Ok_0),
{
    let distance = elapsed.unwrap();
    whole_seconds(&distance)
}

/// What a reading of the clock comes to, given how far it lies from the
/// start of 1970: the whole seconds of that distance for a reading at or
/// after it, and the error for a reading before it.
pub fn seconds_since_epoch(elapsed: Result<Duration, SystemTimeError>) -> (r: Result<u64, ClockError>)
    ensures
        r == reading(elapsed),
{
    if elapsed.is_ok() {
        Ok(seconds_after_epoch(elapsed))
    } else {
        Err(ClockError::BeforeEpoch)
    }
}

} // verus!
