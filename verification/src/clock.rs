//! Readings of the machine's clocks. When a clock is read depends on the
//! moment of the call, so a reading is never promised; what is computed from
//! a reading is, through names for the std functions that measure between
//! two readings.

use vstd::prelude::*;
use std::time::Duration;
use std::time::Instant;
use std::time::SystemTime;

verus! {

#[verifier::external_type_specification]
#[verifier::external_body]
pub struct ExInstant(Instant);

#[verifier::external_type_specification]
#[verifier::external_body]
pub struct ExSystemTime(SystemTime);

/// The whole nanoseconds from `earlier` to `later`, as
/// `Instant::duration_since` measures them (zero where `earlier` is later).
pub uninterp spec fn nanos_from(later: Instant, earlier: Instant) -> u128;

/// The whole milliseconds from the Unix epoch to `t`, as
/// `SystemTime::duration_since(UNIX_EPOCH)` measures them, or `None` where
/// `t` lies before the epoch.
pub uninterp spec fn epoch_millis(t: SystemTime) -> Option<u128>;

/// The whole milliseconds of a duration, as `Duration::as_millis` gives them.
pub uninterp spec fn duration_ms(d: Duration) -> u128;

/// Calls `Instant::now`: a reading of the monotonic clock. Nothing is
/// promised of it.
#[verifier::external_body]
pub(crate) fn instant_now() -> Instant {
    Instant::now()
}

/// Calls `Instant::duration_since` and hands back the whole nanoseconds of
/// the duration; the value depends on the two instants alone.
#[verifier::external_body]
pub(crate) fn nanos_between(later: &Instant, earlier: &Instant) -> (n: u128)
    ensures
        n == nanos_from(*later, *earlier),
{
    later.duration_since(*earlier).as_nanos()
}

/// Calls `SystemTime::now`: a reading of the wall clock. Nothing is
/// promised of it.
#[verifier::external_body]
pub(crate) fn system_now() -> SystemTime {
    SystemTime::now()
}

/// Calls `SystemTime::duration_since` with the Unix epoch and hands back the
/// whole milliseconds, or `None` where the reading lies before the epoch.
#[verifier::external_body]
pub(crate) fn millis_since_unix_epoch(t: &SystemTime) -> (r: Option<u128>)
    ensures
        r == epoch_millis(*t),
{
    match t.duration_since(std::time::UNIX_EPOCH) {
        Ok(d) => Some(d.as_millis()),
        Err(_) => None,
    }
}

/// Calls `Duration::as_millis`.
#[verifier::external_body]
pub(crate) fn duration_millis(d: &Duration) -> (ms: u128)
    ensures
        ms == duration_ms(*d),
{
    d.as_millis()
}

/// The `i64` that a wall-clock reading of `reading` epoch milliseconds gives:
/// the milliseconds truncated by an `as` cast, or `0` before the epoch.
pub open spec fn ms_value(reading: Option<u128>) -> i64 {
    match reading {
        Some(ms) => ms as i64,
        None => 0,
    }
}

/// The wall clock at `t`, in milliseconds since the Unix epoch.
pub open spec fn wall_ms(t: SystemTime) -> i64 {
    ms_value(epoch_millis(t))
}

/// Turns an epoch-milliseconds reading into the `i64` the server keeps.
pub fn ms_from_reading(reading: Option<u128>) -> (ms: i64)
    ensures
        ms == ms_value(reading),
{
    match reading {
        Some(ms) => ms as i64,
        None => 0,
    }
}

/// Milliseconds since the Unix epoch on the wall clock, `0` where the clock
/// reads before the epoch, truncated to an `i64` by an `as` cast. Only
/// compared against recent readings, so wrap-around does not matter. The
/// result is the wall clock at the moment it was read.
pub fn now_ms() -> (ms: i64)
    ensures
        exists|t: SystemTime| ms == wall_ms(t),
{
    let t = system_now();
    let ms = ms_from_reading(millis_since_unix_epoch(&t));
    assert(ms == wall_ms(t));
    ms
}

} // verus!
