//! Wall-clock readings.

use std::time::{Duration, SystemTime, SystemTimeError, UNIX_EPOCH};
use vstd::prelude::*;

verus! {

/// `std::time::SystemTime`, a reading of the system clock; nothing is known
/// of what a value holds.
#[verifier::external_type_specification]
#[verifier::external_body]
pub struct ExSystemTime(SystemTime);

/// `std::time::SystemTimeError`, the error of `SystemTime::duration_since`;
/// nothing is known of what a value holds.
#[verifier::external_type_specification]
#[verifier::external_body]
pub struct ExSystemTimeError(SystemTimeError);

/// `SystemTime::now` reads the system clock; nothing is claimed of the reading.
pub assume_specification[ SystemTime::now ]() -> (t: SystemTime);

/// `Duration::as_secs` gives the whole seconds of a duration; no value is claimed.
pub assume_specification[ Duration::as_secs ](d: &Duration) -> (secs: u64);

/// `Duration::as_millis` gives the whole milliseconds of a duration; no value is claimed.
pub assume_specification[ Duration::as_millis ](d: &Duration) -> (millis: u128);

/// `SystemTime::duration_since` against `UNIX_EPOCH`: the time elapsed since the
/// epoch, or an error where the clock reads earlier than the epoch. Nothing is
/// claimed of either.
#[verifier::external_body]
fn since_unix_epoch(t: &SystemTime) -> (r: Result<Duration, SystemTimeError>) {
    t.duration_since(UNIX_EPOCH)
}

/// Seconds since the Unix epoch; zero where the clock reads earlier than the epoch.
pub fn now_unix_sec() -> (secs: u64) {
    let now = SystemTime::now();
    seconds_of(match since_unix_epoch(&now) {
        Ok(d) => Some(d.as_secs()),
        Err(_) => None,
    })
}

/// Milliseconds since the Unix epoch, saturating at `u64::MAX`; zero where the
/// clock reads earlier than the epoch.
pub fn now_unix_millis() -> (millis: u64) {
    let now = SystemTime::now();
    millis_of(match since_unix_epoch(&now) {
        Ok(d) => Some(d.as_millis()),
        Err(_) => None,
    })
}

/// The seconds that a reading of the clock stands for: those read, or zero
/// where there is none because the clock read earlier than the epoch.
pub open spec fn seconds_read(reading: Option<u64>) -> u64 {
    match reading {
        Some(secs) => secs,
        None => 0,
    }
}

/// Computes [`seconds_read`].
pub fn seconds_of(reading: Option<u64>) -> (secs: u64)
    ensures
        secs == seconds_read(reading),
{
    match reading {
        Some(secs) => secs,
        None => 0,
    }
}

/// The milliseconds that a reading of the clock stands for: those read, at
/// most `u64::MAX`, or zero where there is none because the clock read earlier
/// than the epoch.
pub open spec fn millis_read(reading: Option<u128>) -> u64 {
    match reading {
        Some(ms) => if ms > u64::MAX {
            u64::MAX
        } else {
            ms as u64
        },
        None => 0,
    }
}

/// Computes [`millis_read`].
pub fn millis_of(reading: Option<u128>) -> (millis: u64)
    ensures
        millis == millis_read(reading),
{
    match reading {
        Some(ms) => if ms > 0xffff_ffff_ffff_ffff_u128 {
            u64::MAX
        } else {
            ms as u64
        },
        None => 0,
    }
}

/// Time elapsed from `earlier` to `now`; zero where `now` lies before `earlier`.
pub open spec fn elapsed(earlier: u64, now: u64) -> nat {
    if now >= earlier {
        (now - earlier) as nat
    } else {
        0
    }
}

/// Computes [`elapsed`]: the difference of two readings, clamped at zero.
pub fn elapsed_since(earlier: u64, now: u64) -> (d: u64)
    ensures
        d == elapsed(earlier, now),
{
    if now >= earlier {
        now - earlier
    } else {
        0
    }
}

} // verus!
