//! Wall-clock time: Unix timestamps, broken-down calendar times and the time
//! units of tick events.
use vstd::prelude::*;

verus! {

/// The C `time_t`: seconds since the Unix epoch.
pub type TimeT = i32;

/// A global time, as seconds since the Unix epoch (1970-01-01T00:00:00Z).
#[derive(Debug, Copy, Clone, PartialEq, Eq, Structural)]
pub struct Time {
    pub value: TimeT,
}

impl Time {
    /// The time `seconds` after the Unix epoch.
    pub fn from_epoch_seconds(seconds: TimeT) -> (r: Self)
        ensures
            r.value == seconds,
    {
        Self { value: seconds }
    }

    /// The offset in seconds from the Unix epoch.
    pub fn epoch_seconds(&self) -> (r: TimeT)
        ensures
            r == self.value,
    {
        self.value
    }

    /// Interprets the result of the C `mktime`, which is -1 when the calendar
    /// time cannot be represented.
    pub fn from_mktime(result: TimeT) -> (r: Result<Self, ()>)
        ensures
            result == -1 ==> r is Err,
            result != -1 ==> r == Ok::<Time, ()>(Time { value: result }),
    {
        if result == -1 {
            return Err(());
        }
        Ok(Self::from_epoch_seconds(result))
    }
}

/// A broken-down calendar time (the C `struct tm`), in UTC or local time.
#[derive(Debug, Clone, Copy)]
pub struct LocalTime {
    pub tm_sec: i32,
    pub tm_min: i32,
    pub tm_hour: i32,
    pub tm_mday: i32,
    pub tm_mon: i32,
    pub tm_year: i32,
    pub tm_wday: i32,
    pub tm_yday: i32,
    pub tm_isdst: i32,
    pub tm_gmtoff: i32,
    pub tm_zone: [u8; 6],
}

impl LocalTime {
    /// Returns the seconds within the minute.
    pub fn second(&self) -> (r: i32)
        ensures
            r == self.tm_sec,
    {
        self.tm_sec
    }

    /// Returns the minutes within the hour.
    pub fn minute(&self) -> (r: i32)
        ensures
            r == self.tm_min,
    {
        self.tm_min
    }

    /// Returns the hours within the day.
    pub fn hour(&self) -> (r: i32)
        ensures
            r == self.tm_hour,
    {
        self.tm_hour
    }

    /// Returns the one-based day of the month.
    pub fn day(&self) -> (r: i32)
        ensures
            r == self.tm_mday,
    {
        self.tm_mday
    }

    /// Returns the zero-based month index.
    pub fn month(&self) -> (r: i32)
        ensures
            r == self.tm_mon,
    {
        self.tm_mon
    }

    /// Returns the year (the C `tm_year` counts years since 1900).
    pub fn year(&self) -> (r: i32)
        requires
            self.tm_year + 1900 <= i32::MAX,
        ensures
            r == self.tm_year + 1900,
    {
        self.tm_year + 1900
    }

    /// The size of the buffer that formatting with a format string of
    /// `format_len` bytes uses: three times the format length.
    pub fn format_buffer_len(format_len: usize) -> (r: usize)
        requires
            format_len * 3 <= usize::MAX,
        ensures
            r == format_len * 3,
    {
        format_len * 3
    }

    /// The `strftime` format of the hour and minute, for a 24-hour or a
    /// 12-hour clock.
    pub fn hh_mm_format(is_24h: bool) -> (r: &'static str)
        ensures
            is_24h ==> r@ == "%H:%M"@,
            !is_24h ==> r@ == "%I:%M"@,
    {
        if is_24h {
            "%H:%M"
        } else {
            "%I:%M"
        }
    }
}

/// `TimeUnits`: every second.
pub const SECOND_UNIT: u8 = 1;
/// `TimeUnits`: every minute.
pub const MINUTE_UNIT: u8 = 2;
/// `TimeUnits`: every hour.
pub const HOUR_UNIT: u8 = 4;
/// `TimeUnits`: every day.
pub const DAY_UNIT: u8 = 8;
/// `TimeUnits`: every month.
pub const MONTH_UNIT: u8 = 16;
/// `TimeUnits`: every year.
pub const YEAR_UNIT: u8 = 32;

/// A set of time units, in particular for tick callback granularity.
#[derive(Debug, Clone, Copy, PartialEq, Eq, Structural, PartialOrd, Ord, Hash)]
pub struct TimeUnits {
    pub bits: u8,
}

impl TimeUnits {
    /// Every second.
    pub fn second() -> (r: Self)
        ensures
            r.bits == SECOND_UNIT,
    {
        TimeUnits { bits: SECOND_UNIT }
    }

    /// Every minute.
    pub fn minute() -> (r: Self)
        ensures
            r.bits == MINUTE_UNIT,
    {
        TimeUnits { bits: MINUTE_UNIT }
    }

    /// Every hour.
    pub fn hour() -> (r: Self)
        ensures
            r.bits == HOUR_UNIT,
    {
        TimeUnits { bits: HOUR_UNIT }
    }

    /// Every day.
    pub fn day() -> (r: Self)
        ensures
            r.bits == DAY_UNIT,
    {
        TimeUnits { bits: DAY_UNIT }
    }

    /// Every month.
    pub fn month() -> (r: Self)
        ensures
            r.bits == MONTH_UNIT,
    {
        TimeUnits { bits: MONTH_UNIT }
    }

    /// Every year.
    pub fn year() -> (r: Self)
        ensures
            r.bits == YEAR_UNIT,
    {
        TimeUnits { bits: YEAR_UNIT }
    }

    /// The raw bits for the C API.
    pub fn bits(&self) -> (r: u8)
        ensures
            r == self.bits,
    {
        self.bits
    }

    /// The units of both sets.
    pub fn union(self, other: Self) -> (r: Self)
        ensures
            r.bits == self.bits | other.bits,
    {
        TimeUnits { bits: self.bits | other.bits }
    }

    /// Whether every unit of `other` is in this set.
    pub fn contains(&self, other: Self) -> (r: bool)
        ensures
            r == (self.bits & other.bits == other.bits),
    {
        self.bits & other.bits == other.bits
    }
}

/// A union contains both of its parts.
pub proof fn lemma_time_units_union_contains(a: u8, b: u8)
    ensures
        (a | b) & a == a,
        (a | b) & b == b,
{
    assert((a | b) & a == a) by (bit_vector);
    assert((a | b) & b == b) by (bit_vector);
}

} // verus!
