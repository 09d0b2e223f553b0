//! The wall clock the device keeps between network time syncs.
//!
//! The clock stores the wall time of the boot instant; the current time
//! is that anchor plus the monotonic uptime.  A network sync moves the
//! anchor; reading the clock never does.  The display's local time is a
//! fixed offset east of UTC.

use vstd::prelude::*;

verus! {

/// Seconds the displayed local time lies east of UTC.
pub const LOCAL_UTC_OFFSET_SECS: u64 = 28800;

/// Threshold, in seconds, after which the time is synced again.
pub const RESYNC_AFTER_SECS: u64 = 3600;

/// The wall clock, anchored at the boot instant.
#[derive(Eq, PartialEq, Copy, Clone, Debug, Structural)]
pub struct Clock {
    /// Wall time, in Unix milliseconds, of the instant the uptime
    /// counter read zero.
    pub sys_start_ms: u64,
}

impl Clock {
    /// A clock that has never been set: anchored at the epoch.
    pub fn new() -> (c: Clock)
        ensures
            c.sys_start_ms == 0,
    {
        Clock { sys_start_ms: 0 }
    }

    /// Learn the current wall time (from a network sync or from the
    /// sleep anchor): the boot anchor becomes `now` minus the uptime,
    /// so that every later reading continues seamlessly.
    pub fn set_time(&mut self, now_wall_ms: u64, uptime_ms: u64)
        requires
            uptime_ms <= now_wall_ms,
        ensures
            final(self).sys_start_ms == now_wall_ms - uptime_ms,
    {
        self.sys_start_ms = now_wall_ms - uptime_ms;
    }

    /// The current wall time, in Unix milliseconds.
    pub fn now_ms(&self, uptime_ms: u64) -> (r: u64)
        requires
            self.sys_start_ms + uptime_ms <= u64::MAX,
        ensures
            r == self.sys_start_ms + uptime_ms,
    {
        self.sys_start_ms + uptime_ms
    }
}

/// The displayed local time, in seconds, of a UTC wall time.
pub fn local_secs(wall_secs: u64) -> (r: u64)
    requires
        wall_secs + LOCAL_UTC_OFFSET_SECS <= u64::MAX,
    ensures
        r == wall_secs + LOCAL_UTC_OFFSET_SECS,
{
    wall_secs + LOCAL_UTC_OFFSET_SECS
}

/// The day of the week of a local time, with 0 for Monday through 6 for
/// Sunday; the epoch fell on a Thursday.
pub fn week_day_index(local_secs: u64) -> (r: u8)
    ensures
        r == (local_secs / 86400 + 3) % 7,
        r < 7,
{
    ((local_secs / 86400 + 3) % 7) as u8
}

/// Whether a time sync has ever completed: the sync instant is recorded
/// as a nonzero wall time.
pub fn sync_time_success(clock_sync_time_second: u64) -> (r: bool)
    ensures
        r == (clock_sync_time_second > 0),
{
    clock_sync_time_second > 0
}

/// Whether the periodic worker is due for a fresh network sync: never
/// synced yet, or the last sync is older than the threshold.
pub fn needs_resync(now_secs: u64, last_sync_secs: u64) -> (r: bool)
    requires
        last_sync_secs <= now_secs,
    ensures
        r == (last_sync_secs == 0 || now_secs - last_sync_secs > RESYNC_AFTER_SECS),
{
    last_sync_secs == 0 || now_secs - last_sync_secs > RESYNC_AFTER_SECS
}

/// Whether a Gregorian year leaps.
pub open spec fn spec_leap(year: u32) -> bool {
    (year % 4 == 0 && year % 100 != 0) || year % 400 == 0
}

/// Whether a Gregorian year is a leap year.
pub fn is_leap_year(year: u32) -> (r: bool)
    ensures
        r == spec_leap(year),
{
    (year % 4 == 0 && year % 100 != 0) || year % 400 == 0
}

/// Days of the month `m` of year `y`, months counted from 1.
pub open spec fn spec_month_len(y: u32, m: u8) -> int {
    if m == 2 {
        if spec_leap(y) {
            29
        } else {
            28
        }
    } else if m == 4 || m == 6 || m == 9 || m == 11 {
        30
    } else {
        31
    }
}

/// How many days the month has: what the calendar page needs to lay its
/// grid out and find the month's last day.
pub fn days_in_month(year: u32, month: u8) -> (d: u8)
    requires
        1 <= month <= 12,
    ensures
        d == spec_month_len(year, month),
{
    if month == 2 {
        if is_leap_year(year) {
            29
        } else {
            28
        }
    } else if month == 4 || month == 6 || month == 9 || month == 11 {
        30
    } else {
        31
    }
}

/// Days of the year `y`.
pub open spec fn spec_year_len(y: u32) -> int {
    if spec_leap(y) {
        366
    } else {
        365
    }
}

/// Days from the epoch to the start of year `y`.
pub open spec fn spec_days_to_year(y: u32) -> int
    decreases y,
{
    if y <= 1970 {
        0
    } else {
        spec_days_to_year((y - 1) as u32) + spec_year_len((y - 1) as u32)
    }
}

/// Days of year `y` that lie before month `m`.
pub open spec fn spec_days_to_month(y: u32, m: u8) -> int
    decreases m,
{
    if m <= 1 {
        0
    } else {
        spec_days_to_month(y, (m - 1) as u8) + spec_month_len(y, (m - 1) as u8)
    }
}

/// The day number (days since the epoch) of a civil date.
pub open spec fn spec_date_to_days(y: u32, m: u8, d: u8) -> int {
    spec_days_to_year(y) + spec_days_to_month(y, m) + d - 1
}

/// A year's months sum to its length.
proof fn lemma_year_months(y: u32)
    ensures
        spec_days_to_month(y, 13) == spec_year_len(y),
{
    reveal_with_fuel(spec_days_to_month, 14);
}

/// The civil date of a day number: the unique calendar date whose day
/// number it is, which is what the clock and calendar pages display.
pub fn civil_from_days(days: u32) -> (r: (u32, u8, u8))
    requires
        days < 100_000_000,
    ensures
        1970 <= r.0,
        1 <= r.1 <= 12,
        1 <= r.2,
        r.2 <= spec_month_len(r.0, r.1),
        spec_date_to_days(r.0, r.1, r.2) == days,
{
    let mut year: u32 = 1970;
    let mut rem: u32 = days;
    loop
        invariant
            1970 <= year,
            spec_days_to_year(year) + rem == days,
            spec_days_to_year(year) >= 365 * (year - 1970),
        ensures
            1970 <= year,
            spec_days_to_year(year) + rem == days,
            rem < spec_year_len(year),
        decreases rem,
    {
        let yl: u32 = if is_leap_year(year) {
            366
        } else {
            365
        };
        if rem < yl {
            break;
        }
        rem = rem - yl;
        year = year + 1;
    }
    proof {
        lemma_year_months(year);
    }
    let mut month: u8 = 1;
    loop
        invariant
            1 <= month <= 12,
            spec_days_to_year(year) + spec_days_to_month(year, month) + rem == days,
            spec_days_to_month(year, month) + rem < spec_year_len(year),
            spec_days_to_month(year, 13) == spec_year_len(year),
        ensures
            1 <= month <= 12,
            spec_days_to_year(year) + spec_days_to_month(year, month) + rem == days,
            rem < spec_month_len(year, month),
        decreases 12 - month,
    {
        let ml = days_in_month(year, month);
        if rem < ml as u32 {
            break;
        }
        proof {
            if month == 12 {
                assert(spec_days_to_month(year, 13) == spec_days_to_month(year, 12)
                    + spec_month_len(year, 12));
            }
        }
        rem = rem - ml as u32;
        month = month + 1;
    }
    let day: u8 = (rem + 1) as u8;
    (year, month, day)
}

/// The displayed civil date of a local time.
pub fn date_of_local_secs(secs: u64) -> (r: (u32, u8, u8))
    requires
        secs < 8_640_000_000_000,
    ensures
        1970 <= r.0,
        1 <= r.1 <= 12,
        1 <= r.2,
        r.2 <= spec_month_len(r.0, r.1),
        spec_date_to_days(r.0, r.1, r.2) == secs / 86400,
{
    let days = (secs / 86400) as u32;
    civil_from_days(days)
}

} // verus!
