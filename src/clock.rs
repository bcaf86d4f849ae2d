use std::time::{Duration, SystemTime, SystemTimeError};
use vstd::prelude::*;

verus! {

/// `std::time::SystemTime`, a wall-clock reading, carried through unopened.
#[verifier::external_type_specification]
#[verifier::external_body]
pub struct ExSystemTime(SystemTime);

/// `std::time::SystemTimeError`, a clock reading before the one compared
/// with, carried through unopened.
#[verifier::external_type_specification]
#[verifier::external_body]
pub struct ExSystemTimeError(SystemTimeError);

/// Relies on `SystemTime::now`: it reads the wall clock, so nothing is known of
/// the value.
pub assume_specification[ SystemTime::now ]() -> SystemTime;

/// Relies on `SystemTime::duration_since`: an error when `earlier` is later
/// than `self`; nothing else is known of the value.
pub assume_specification[ SystemTime::duration_since ](
    this: &SystemTime,
    earlier: SystemTime,
) -> Result<Duration, SystemTimeError>;

/// Relies on `Duration::as_secs`: the whole seconds of the duration.
pub assume_specification[ Duration::as_secs ](d: &Duration) -> u64;

/// Relies on `std::time::UNIX_EPOCH`: the start of Unix time.
#[verifier::external_body]
fn unix_epoch() -> SystemTime {
    std::time::UNIX_EPOCH
}

/// The timestamp for `elapsed` whole seconds since the Unix epoch (`None`
/// for a clock set before it): `0` before the epoch, the seconds themselves
/// where they fit in `i64`, and `i64::MAX` beyond.
pub fn timestamp_from_elapsed(elapsed: Option<u64>) -> (t: i64)
    ensures
        match elapsed {
            Some(secs) => t == if secs <= i64::MAX { secs as int } else { i64::MAX as int },
            None => t == 0,
        },
{
    match elapsed {
        Some(secs) => {
            if secs <= i64::MAX as u64 {
                secs as i64
            } else {
                i64::MAX
            }
        },
        None => 0,
    }
}

/// Whole seconds since the Unix epoch, by the wall clock.
///
/// A clock set before the epoch reads as `0`; one past the range of `i64`
/// reads as `i64::MAX`.
pub fn get_timestamp() -> (t: i64)
    ensures
        t >= 0,
{
    let now = SystemTime::now();
    let elapsed = match now.duration_since(unix_epoch()) {
        Ok(duration) => Some(duration.as_secs()),
        Err(_) => None,
    };
    timestamp_from_elapsed(elapsed)
}

} // verus!
