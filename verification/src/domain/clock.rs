//! Time as a capability that is handed in, so that nothing reads an ambient
//! clock.

use std::time::{Duration, SystemTime, SystemTimeError, UNIX_EPOCH};
use vstd::prelude::*;

verus! {

/// Gives the current time in whole seconds since the Unix epoch.
pub trait Clock: Send + Sync {
    fn now(&self) -> i64;
}

/// `std::time::SystemTime`, carried through as it is: nothing is known of
/// what a value of it holds.
#[verifier::external_type_specification]
#[verifier::external_body]
pub struct ExSystemTime(SystemTime);

/// `std::time::SystemTimeError`, carried through as it is: nothing is known
/// of what a value of it holds.
#[verifier::external_type_specification]
#[verifier::external_body]
pub struct ExSystemTimeError(SystemTimeError);

/// `SystemTime::now`: the machine's wall clock. Nothing is claimed of the
/// reading.
#[verifier::external_body]
fn wall_clock() -> SystemTime {
    SystemTime::now()
}

/// `SystemTime::duration_since`, measured from the Unix epoch. Nothing is
/// claimed of the result; it is an error where the clock stands before the
/// epoch.
#[verifier::external_body]
fn since_epoch(t: &SystemTime) -> Result<Duration, SystemTimeError> {
    t.duration_since(UNIX_EPOCH)
}

/// `Duration::as_secs`: the whole seconds in a duration. Nothing is claimed
/// of the number.
#[verifier::external_body]
fn whole_seconds(d: &Duration) -> u64 {
    d.as_secs()
}

/// The time that a reading of the clock stands for. `elapsed` is the count
/// of whole seconds since the Unix epoch, and absent where the clock stands
/// before the epoch: that reads as 0, and a count that does not fit reads as
/// the largest `i64`.
pub open spec fn epoch_seconds(elapsed: Option<u64>) -> i64 {
    match elapsed {
        Some(count) => if count > i64::MAX as u64 {
            i64::MAX
        } else {
            count as i64
        },
        None => 0,
    }
}

/// The time that a reading of the clock stands for.
pub fn seconds_since_epoch(elapsed: Option<u64>) -> (seconds: i64)
    ensures
        seconds == epoch_seconds(elapsed),
        seconds >= 0,
{
    match elapsed {
        Some(count) => {
            if count > i64::MAX as u64 {
                i64::MAX
            } else {
                count as i64
            }
        },
        None => 0,
    }
}

/// The clock of the machine.
pub struct SystemClock;

impl Clock for SystemClock {
    /// Seconds since the Unix epoch by the machine's clock, as
    /// `seconds_since_epoch` reads them. What the clock shows is not known
    /// before it is read, so no more is promised here than what holds of
    /// every reading.
    fn now(&self) -> (seconds: i64)
        ensures
            seconds >= 0,
    {
        let reading = wall_clock();
        let elapsed = match since_epoch(&reading) {
            Ok(elapsed) => Some(whole_seconds(&elapsed)),
            Err(_) => None,
        };
        seconds_since_epoch(elapsed)
    }
}

/// A clock that always shows the same time.
pub struct MockClock {
    pub timestamp: i64,
}

impl Clock for MockClock {
    fn now(&self) -> (seconds: i64)
        ensures
            seconds == self.timestamp,
    {
        self.timestamp
    }
}

} // verus!
