//! The clocks and the random source the bot reads: wall-clock time, a
//! monotonic clock, the UTC calendar date and random numbers.

use std::time::{Duration, Instant, SystemTime};
use vstd::prelude::*;

verus! {

#[verifier::external_type_specification]
#[verifier::external_body]
pub struct ExSystemTime(SystemTime);

#[verifier::external_type_specification]
#[verifier::external_body]
pub struct ExInstant(Instant);

/// std's `SystemTime::now`: the current wall-clock time. Nothing is
/// claimed of it.
#[verifier::external_body]
pub(crate) fn system_now() -> SystemTime {
    SystemTime::now()
}

/// std's `SystemTime::duration_since(UNIX_EPOCH)`: the time since the Unix
/// epoch, `None` when the clock is set before it. Nothing is claimed of
/// the value.
#[verifier::external_body]
pub(crate) fn since_unix_epoch(t: &SystemTime) -> Option<Duration> {
    t.duration_since(std::time::UNIX_EPOCH).ok()
}

/// std's `Duration::as_secs`: the whole seconds of a duration. The
/// duration is opaque here, so nothing is claimed of the number.
#[verifier::external_body]
pub(crate) fn duration_secs(d: &Duration) -> u64 {
    d.as_secs()
}

/// std's `Duration::subsec_nanos`: the fractional part of a duration in
/// nanoseconds, which std documents as always under one billion.
#[verifier::external_body]
pub(crate) fn duration_subsec_nanos(d: &Duration) -> (n: u32)
    ensures
        n < 1_000_000_000,
{
    d.subsec_nanos()
}

/// std's `Duration::as_nanos`: a duration's length in nanoseconds. The
/// duration is opaque here, so nothing is claimed of the number.
#[verifier::external_body]
pub(crate) fn duration_nanos(d: &Duration) -> u128 {
    d.as_nanos()
}

/// std's `Instant::now`: a reading of the monotonic clock.
#[verifier::external_body]
pub(crate) fn instant_now() -> Instant {
    Instant::now()
}

/// std's `Instant::duration_since`: the time from `earlier` to `later`,
/// zero when `earlier` is the later one. Nothing is claimed of the value.
#[verifier::external_body]
pub(crate) fn instant_duration_since(later: &Instant, earlier: &Instant) -> Duration {
    later.duration_since(*earlier)
}

/// The month and year chrono's `DateTime::<Utc>::from_timestamp` places a
/// moment at, given as seconds and nanoseconds from the Unix epoch; `None`
/// where chrono finds the moment out of its range.
pub uninterp spec fn utc_month_year_at_spec(secs: i64, nanos: u32) -> Option<(u32, i32)>;

/// chrono's `DateTime::<Utc>::from_timestamp(secs, nanos)`, then its
/// `Datelike::month` and `Datelike::year`. chrono returns `None` for a
/// moment out of its range rather than panicking, and documents the month
/// as ranging from 1 to 12; the calendar arithmetic itself is only named.
#[verifier::external_body]
fn utc_month_year_at(secs: i64, nanos: u32) -> (r: Option<(u32, i32)>)
    ensures
        r == utc_month_year_at_spec(secs, nanos),
        r matches Some(p) ==> 1 <= p.0 <= 12,
{
    match chrono::DateTime::from_timestamp(secs, nanos) {
        Some(d) => Some((chrono::Datelike::month(&d), chrono::Datelike::year(&d))),
        None => None,
    }
}

/// rand's `random::<u32>()`: a random 32-bit number.
#[verifier::external_body]
pub(crate) fn random_u32() -> u32 {
    rand::random::<u32>()
}

/// rand's `random::<u16>()`: a random 16-bit number.
#[verifier::external_body]
pub(crate) fn random_u16() -> u16 {
    rand::random::<u16>()
}

/// The wall-clock time since the Unix epoch as whole seconds and the
/// nanoseconds past them; zero when the clock reads before the epoch.
pub fn clock_seed() -> (r: (u64, u32))
    ensures
        r.1 < 1_000_000_000,
{
    let now = system_now();
    match since_unix_epoch(&now) {
        Some(d) => (duration_secs(&d), duration_subsec_nanos(&d)),
        None => (0, 0),
    }
}

/// Nanoseconds on the monotonic clock from `earlier` to now.
pub fn nanos_since(earlier: &Instant) -> (r: (u128, Instant)) {
    let now = instant_now();
    let d = instant_duration_since(&now, earlier);
    (duration_nanos(&d), now)
}

/// The UTC month and year now, read from the wall clock; a clock set
/// before the Unix epoch counts as the epoch itself. `None` only where the
/// reading lies beyond what chrono can place on the calendar.
pub fn utc_month_year() -> (r: Option<(u32, i32)>)
    ensures
        r matches Some(p) ==> 1 <= p.0 <= 12,
{
    let (secs, nanos) = clock_seed();
    if secs <= 9_223_372_036_854_775_807u64 {
        utc_month_year_at(secs as i64, nanos)
    } else {
        None
    }
}

} // verus!
