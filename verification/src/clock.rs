//! The wall clock in whole seconds.

use std::time::{Duration, SystemTime, SystemTimeError};

use vstd::prelude::*;

verus! {

/// A point of the system clock.
#[verifier::external_type_specification]
#[verifier::external_body]
pub struct ExSystemTime(SystemTime);

/// The error of a point in time that lies before another.
#[verifier::external_type_specification]
#[verifier::external_body]
pub struct ExSystemTimeError(SystemTimeError);

/// `SystemTime::now` of the standard library: the current time, of which
/// nothing is stated.
pub assume_specification[ SystemTime::now ]() -> (r: SystemTime)
;

/// `SystemTime::duration_since` of the standard library: the time from the
/// earlier point to this one, or an error where it is not earlier. What a point
/// in time is stays open, so nothing is stated of the time between two.
pub assume_specification[ SystemTime::duration_since ](
    t: &SystemTime,
    earlier: SystemTime,
) -> (r: Result<Duration, SystemTimeError>)
;

/// `Duration::as_secs` of the standard library: the whole seconds. What a
/// duration is stays open, so nothing is stated of their number.
pub assume_specification[ Duration::as_secs ](d: &Duration) -> (r: u64)
;

/// `SystemTime::UNIX_EPOCH` of the standard library.
#[verifier::external_body]
fn unix_epoch() -> SystemTime {
    SystemTime::UNIX_EPOCH
}

/// Can the clock tell that `passed` whole seconds have passed since the Unix
/// epoch, or, with `None`, that it stands before the epoch? That is what
/// `SystemTime::duration_since` and `Duration::as_secs` can say of the epoch and
/// of what `SystemTime::now` can return.
pub closed spec fn clock_can_tell(passed: Option<u64>) -> bool {
    exists|now: SystemTime, epoch: SystemTime, since: Result<Duration, SystemTimeError>|
        {
            &&& call_ensures(SystemTime::now, (), now)
            &&& call_ensures(unix_epoch, (), epoch)
            &&& #[trigger] call_ensures(SystemTime::duration_since, (&now, epoch), since)
            &&& match since {
                Ok(d) => passed matches Some(secs) && call_ensures(Duration::as_secs, (&d,), secs),
                Err(_) => passed is None,
            }
        }
}

/// The seconds since the Unix epoch, by the time that has passed since then in
/// whole seconds; 0 where the clock stands before the epoch.
pub open spec fn secs_since_epoch(passed: Option<u64>) -> u64 {
    match passed {
        Some(secs) => secs,
        None => 0,
    }
}

/// The seconds since the Unix epoch, by the time that has passed since then in
/// whole seconds; 0 where the clock stands before the epoch.
pub fn unix_secs(passed: Option<u64>) -> (r: u64)
    ensures
        r == secs_since_epoch(passed),
{
    match passed {
        Some(secs) => secs,
        None => 0,
    }
}

/// What the clock can tell comes from the clock: it is the whole seconds of the
/// time between the epoch and a point that `SystemTime::now` returned, or none
/// where that point lies before the epoch.
pub proof fn the_clock_tells_the_time_since_the_epoch(passed: Option<u64>)
    requires
        clock_can_tell(passed),
    ensures
        exists|now: SystemTime, epoch: SystemTime, since: Result<Duration, SystemTimeError>|
            call_ensures(SystemTime::now, (), now) && #[trigger] call_ensures(
                SystemTime::duration_since,
                (&now, epoch),
                since,
            ) && (since is Err <==> passed is None) && (since matches Ok(d) ==> call_ensures(
                Duration::as_secs,
                (&d,),
                secs_since_epoch(passed),
            )),
{
}

/// A clock that stands `secs` seconds behind the epoch tells just that number;
/// one that stands before the epoch tells 0.
pub proof fn clocks_before_the_epoch_tell_zero(secs: u64)
    ensures
        secs_since_epoch(Some(secs)) == secs,
        secs_since_epoch(None) == 0,
{
}

/// The seconds since the Unix epoch, by the system clock. What the clock tells
/// is left open.
pub fn current_unix_secs() -> (r: u64)
    ensures
        exists|passed: Option<u64>| #[trigger]
            clock_can_tell(passed) && r == secs_since_epoch(passed),
{
    let now = SystemTime::now();
    let epoch = unix_epoch();
    let since = now.duration_since(epoch);
    let passed = match &since {
        Ok(d) => Some(d.as_secs()),
        Err(_) => None,
    };
    assert(clock_can_tell(passed));
    unix_secs(passed)
}

} // verus!
