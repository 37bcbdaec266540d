//! Points in time as whole seconds since the Unix epoch (UTC), and calendar days.
use vstd::prelude::*;

verus! {

/// Seconds in one calendar day.
pub const SECONDS_PER_DAY: i64 = 86400;

/// Seconds in one minute.
pub const SECONDS_PER_MINUTE: i64 = 60;

/// The calendar day (days since the epoch, UTC) on which the instant `t` falls.
pub open spec fn day_of(t: int) -> int {
    t / (SECONDS_PER_DAY as int)
}

/// The instant `days` whole days after `t`.
pub open spec fn plus_days(t: int, days: int) -> int {
    t + days * (SECONDS_PER_DAY as int)
}

/// Whether `t + days` (in days) is a representable instant.
pub open spec fn plus_days_fits(t: int, days: int) -> bool {
    i64::MIN <= plus_days(t, days) <= i64::MAX
}

/// The latest instant that chrono can represent (the last second of year
/// 262143), in seconds since the epoch.
pub const LATEST_CLOCK_READING: i64 = 8_210_298_412_799;

/// Relies on chrono's `Utc::now` and `DateTime::timestamp`: the current
/// instant as seconds since the epoch. `Utc::now` measures the system time
/// from the epoch (so the reading is not negative) and builds a `DateTime`,
/// which chrono bounds by `DateTime::MAX_UTC`.
#[verifier::external_body]
pub(crate) fn unix_now() -> (r: i64)
    ensures
        0 <= r <= LATEST_CLOCK_READING,
{
    chrono::Utc::now().timestamp()
}

/// The current instant, by the system clock.
pub fn current_time() -> (r: i64)
    ensures
        0 <= r <= LATEST_CLOCK_READING,
{
    unix_now()
}

/// The calendar day of `t`.
pub fn day_number(t: i64) -> (r: i64)
    ensures
        r == day_of(t as int),
{
    let q = t / SECONDS_PER_DAY;
    let r = t % SECONDS_PER_DAY;
    if r < 0 {
        q - 1
    } else {
        q
    }
}

/// Whether two instants fall on the same calendar day.
pub fn same_day(a: i64, b: i64) -> (r: bool)
    ensures
        r == (day_of(a as int) == day_of(b as int)),
{
    day_number(a) == day_number(b)
}

/// The instant `days` whole days after `t`.
pub fn add_days(t: i64, days: i32) -> (r: i64)
    requires
        plus_days_fits(t as int, days as int),
    ensures
        r as int == plus_days(t as int, days as int),
{
    t + (days as i64) * SECONDS_PER_DAY
}

} // verus!
