//! Calendar values and the byte-level field conversions of the wire format.
//!
//! A date travels as seven bytes `[century, year, month, day, hour, minute,
//! second]`. The century byte holds `year / 100 + 100` and the year byte
//! `year % 100 + 100`, both with the division truncated towards zero; hour,
//! minute and second travel as the value plus one. A timestamp adds four
//! big-endian nanosecond bytes, and a timestamp with time zone two further
//! bytes `[offset_hours + 20, offset_minutes + 60]`, the offset split into
//! whole hours and leftover minutes of the signed divergence from UTC.

use vstd::arithmetic::div_mod::{
    lemma_div_is_ordered, lemma_fundamental_div_mod, lemma_mod_breakdown,
};
use vstd::prelude::*;

verus! {

/// Leap years of the proleptic Gregorian calendar, by the magnitude of the
/// astronomical year number (divisibility is unaffected by the sign).
pub open spec fn is_leap_year(y: int) -> bool {
    let a = if y >= 0 {
        y
    } else {
        -y
    };
    a % 4 == 0 && (a % 100 != 0 || a % 400 == 0)
}

pub open spec fn days_in_month(y: int, m: int) -> int {
    if m == 2 {
        if is_leap_year(y) {
            29
        } else {
            28
        }
    } else if m == 4 || m == 6 || m == 9 || m == 11 {
        30
    } else {
        31
    }
}

pub fn leap_year(year: i32) -> (r: bool)
    ensures
        r == is_leap_year(year as int),
{
    let wide: i64 = year as i64;
    let a: u64 = if wide >= 0 {
        wide as u64
    } else {
        (-wide) as u64
    };
    a % 4 == 0 && (a % 100 != 0 || a % 400 == 0)
}

pub fn month_length(year: i32, month: u8) -> (r: u8)
    ensures
        r == days_in_month(year as int, month as int),
{
    if month == 2 {
        if leap_year(year) {
            29
        } else {
            28
        }
    } else if month == 4 || month == 6 || month == 9 || month == 11 {
        30
    } else {
        31
    }
}

/// The years whose century byte fits in `0..=255`; the year byte always
/// does. This is the whole range the seven-byte layout can carry.
pub open spec fn year_representable(y: int) -> bool {
    -10099 <= y <= 15599
}

/// The century byte for a year: `y / 100 + 100`, division truncated
/// towards zero.
pub open spec fn century_field(y: int) -> int {
    if y >= 0 {
        y / 100 + 100
    } else {
        100 - ((-y) / 100)
    }
}

/// The year byte for a year: `y % 100 + 100`, remainder of the truncated
/// division.
pub open spec fn year_field(y: int) -> int {
    if y >= 0 {
        y % 100 + 100
    } else {
        100 - ((-y) % 100)
    }
}

/// The year a pair of century and year bytes decodes to.
pub open spec fn decoded_year(century_byte: int, year_byte: int) -> int {
    (century_byte - 100) * 100 + (year_byte - 100)
}

pub proof fn lemma_year_field_bounds(y: int)
    requires
        year_representable(y),
    ensures
        0 <= century_field(y) <= 255,
        1 <= year_field(y) <= 199,
{
    if y >= 0 {
        lemma_div_is_ordered(y, 15599, 100);
        assert(15599int / 100 == 155);
        assert(y / 100 >= 0) by {
            lemma_div_is_ordered(0, y, 100);
        }
    } else {
        let a = -y;
        lemma_div_is_ordered(a, 10099, 100);
        assert(10099int / 100 == 100);
        assert(a / 100 >= 0) by {
            lemma_div_is_ordered(0, a, 100);
        }
    }
}

/// Encoding a year and decoding the two bytes gives the year back.
pub proof fn lemma_year_round_trip(y: int)
    requires
        year_representable(y),
    ensures
        decoded_year(century_field(y), year_field(y)) == y,
{
    if y >= 0 {
        lemma_fundamental_div_mod(y, 100);
    } else {
        lemma_fundamental_div_mod(-y, 100);
    }
}

pub fn convert_century(century_byte: u8) -> (r: i32)
    ensures
        r == (century_byte as int - 100) * 100,
{
    (century_byte as i32 - 100) * 100
}

pub fn convert_year_to_century_raw(year: i32) -> (r: u8)
    requires
        year_representable(year as int),
    ensures
        r == century_field(year as int),
{
    proof {
        lemma_year_field_bounds(year as int);
    }
    if year >= 0 {
        (year as u32 / 100 + 100) as u8
    } else {
        (100 - (-year) as u32 / 100) as u8
    }
}

pub fn convert_year(year_byte: u8) -> (r: i32)
    ensures
        r == year_byte as int - 100,
{
    year_byte as i32 - 100
}

pub fn convert_year_to_raw(year: i32) -> (r: u8)
    requires
        year_representable(year as int),
    ensures
        r == year_field(year as int),
{
    proof {
        lemma_year_field_bounds(year as int);
    }
    if year >= 0 {
        (year as u32 % 100 + 100) as u8
    } else {
        (100 - (-year) as u32 % 100) as u8
    }
}

pub fn convert_month(month_byte: u8) -> (r: u32)
    ensures
        r == month_byte as int,
{
    month_byte as u32
}

pub fn convert_day(day_byte: u8) -> (r: u32)
    ensures
        r == day_byte as int,
{
    day_byte as u32
}

pub fn convert_hour(hour_byte: u8) -> (r: u32)
    requires
        hour_byte >= 1,
    ensures
        r == hour_byte as int - 1,
{
    hour_byte as u32 - 1
}

pub fn convert_hour_to_raw(hour: u32) -> (r: u8)
    requires
        hour <= 23,
    ensures
        r == hour as int + 1,
{
    (hour + 1) as u8
}

pub fn convert_minute(minute_byte: u8) -> (r: u32)
    requires
        minute_byte >= 1,
    ensures
        r == minute_byte as int - 1,
{
    minute_byte as u32 - 1
}

pub fn convert_minute_to_raw(minute: u32) -> (r: u8)
    requires
        minute <= 59,
    ensures
        r == minute as int + 1,
{
    (minute + 1) as u8
}

pub fn convert_second(second_byte: u8) -> (r: u32)
    requires
        second_byte >= 1,
    ensures
        r == second_byte as int - 1,
{
    second_byte as u32 - 1
}

pub fn convert_second_to_raw(second: u32) -> (r: u8)
    requires
        second <= 59,
    ensures
        r == second as int + 1,
{
    (second + 1) as u8
}

/// The time-zone offsets the two offset bytes can carry: whole minutes,
/// from -20 hours up to +23:59.
pub open spec fn tz_offset_representable(off: int) -> bool {
    -72000 <= off <= 86340 && off % 60 == 0
}

/// The hour byte of an offset: whole hours of divergence plus 20,
/// division truncated towards zero.
pub open spec fn tz_hour_field(off: int) -> int {
    if off >= 0 {
        off / 3600 + 20
    } else {
        20 - ((-off) / 3600)
    }
}

/// The minute byte of an offset: leftover minutes beyond the whole hours,
/// plus 60.
pub open spec fn tz_minute_field(off: int) -> int {
    if off >= 0 {
        (off % 3600) / 60 + 60
    } else {
        60 - (((-off) % 3600) / 60)
    }
}

/// The offset in seconds a pair of offset bytes decodes to.
pub open spec fn decoded_tz_offset(hour_byte: int, minute_byte: int) -> int {
    (hour_byte - 20) * 3600 + (minute_byte - 60) * 60
}

pub proof fn lemma_tz_field_bounds(off: int)
    requires
        tz_offset_representable(off),
    ensures
        0 <= tz_hour_field(off) <= 43,
        1 <= tz_minute_field(off) <= 119,
{
    assert(86340int / 3600 == 23);
    assert(72000int / 3600 == 20);
    if off >= 0 {
        lemma_div_is_ordered(off, 86340, 3600);
        lemma_div_is_ordered(0, off, 3600);
        lemma_div_is_ordered(off % 3600, 3599, 60);
        assert(3599int / 60 == 59);
        lemma_div_is_ordered(0, off % 3600, 60);
    } else {
        let a = -off;
        lemma_div_is_ordered(a, 72000, 3600);
        lemma_div_is_ordered(0, a, 3600);
        lemma_div_is_ordered(a % 3600, 3599, 60);
        assert(3599int / 60 == 59);
        lemma_div_is_ordered(0, a % 3600, 60);
    }
}

/// Encoding an offset and decoding the two bytes gives the offset back.
pub proof fn lemma_tz_offset_round_trip(off: int)
    requires
        tz_offset_representable(off),
    ensures
        decoded_tz_offset(tz_hour_field(off), tz_minute_field(off)) == off,
{
    let a = if off >= 0 {
        off
    } else {
        -off
    };
    assert(a % 60 == 0) by {
        if off < 0 {
            lemma_fundamental_div_mod(off, 60);
            lemma_fundamental_div_mod(a, 60);
            assert(a == 60 * (-(off / 60)) + 0);
            vstd::arithmetic::div_mod::lemma_fundamental_div_mod_converse(a, 60, -(off / 60), 0);
        }
    }
    lemma_mod_breakdown(a, 60, 60);
    assert(a % 3600 % 60 == 0);
    lemma_fundamental_div_mod(a, 3600);
    lemma_fundamental_div_mod(a % 3600, 60);
    assert((a % 3600) == 60 * ((a % 3600) / 60));
    assert(a == 3600 * (a / 3600) + 60 * ((a % 3600) / 60));
}

pub fn convert_timezone_hour(timezone_hour_byte: u8) -> (r: i32)
    ensures
        r == timezone_hour_byte as int - 20,
{
    timezone_hour_byte as i32 - 20
}

pub fn convert_timezone_seconds_to_hour_raw(timezone_seconds: i32) -> (r: u8)
    requires
        tz_offset_representable(timezone_seconds as int),
    ensures
        r == tz_hour_field(timezone_seconds as int),
{
    proof {
        lemma_tz_field_bounds(timezone_seconds as int);
    }
    if timezone_seconds >= 0 {
        (timezone_seconds as u32 / 3600 + 20) as u8
    } else {
        (20 - (-timezone_seconds) as u32 / 3600) as u8
    }
}

pub fn convert_timezone_minute(timezone_minute_byte: u8) -> (r: i32)
    ensures
        r == timezone_minute_byte as int - 60,
{
    timezone_minute_byte as i32 - 60
}

pub fn convert_timezone_seconds_to_minute_raw(timezone_seconds: i32) -> (r: u8)
    requires
        tz_offset_representable(timezone_seconds as int),
    ensures
        r == tz_minute_field(timezone_seconds as int),
{
    proof {
        lemma_tz_field_bounds(timezone_seconds as int);
    }
    if timezone_seconds >= 0 {
        (timezone_seconds as u32 % 3600 / 60 + 60) as u8
    } else {
        (60 - (-timezone_seconds) as u32 % 3600 / 60) as u8
    }
}

/// A calendar date of the proleptic Gregorian calendar, within the range
/// the seven-byte wire layout can carry.
#[derive(Clone, Copy, Debug, PartialEq, Eq, Structural)]
pub struct Date {
    pub year: i32,
    pub month: u8,
    pub day: u8,
}

impl Date {
    /// The month and day name a real calendar day of the year.
    pub open spec fn calendar_valid(self) -> bool {
        &&& 1 <= self.month <= 12
        &&& 1 <= self.day as int <= days_in_month(self.year as int, self.month as int)
    }

    pub open spec fn wf(self) -> bool {
        year_representable(self.year as int) && self.calendar_valid()
    }

    /// Builds a date, or nothing where the fields name no representable
    /// calendar day.
    pub fn new(year: i32, month: u8, day: u8) -> (r: Option<Date>)
        ensures
            r matches Some(d) ==> d == (Date { year, month, day }) && d.wf(),
            r is None ==> !(Date { year, month, day }).wf(),
    {
        if -10099 <= year && year <= 15599 && 1 <= month && month <= 12 && 1 <= day && day
            <= month_length(year, month) {
            Some(Date { year, month, day })
        } else {
            None
        }
    }
}

/// The date one day after. The year may grow by one, so the day after the
/// last representable date is left out.
pub open spec fn spec_next_date(d: Date) -> Date {
    if d.day < days_in_month(d.year as int, d.month as int) {
        Date { year: d.year, month: d.month, day: (d.day + 1) as u8 }
    } else if d.month < 12 {
        Date { year: d.year, month: (d.month + 1) as u8, day: 1 }
    } else {
        Date { year: (d.year + 1) as i32, month: 1, day: 1 }
    }
}

/// The date one day before; the day before the first representable date is
/// left out.
pub open spec fn spec_prev_date(d: Date) -> Date {
    if d.day > 1 {
        Date { year: d.year, month: d.month, day: (d.day - 1) as u8 }
    } else if d.month > 1 {
        Date {
            year: d.year,
            month: (d.month - 1) as u8,
            day: days_in_month(d.year as int, d.month as int - 1) as u8,
        }
    } else {
        Date { year: (d.year - 1) as i32, month: 12, day: 31 }
    }
}

pub fn next_date(d: &Date) -> (r: Date)
    requires
        d.wf(),
    ensures
        r == spec_next_date(*d),
        r.calendar_valid(),
        year_representable(r.year as int) ==> r.wf(),
{
    if d.day < month_length(d.year, d.month) {
        Date { year: d.year, month: d.month, day: d.day + 1 }
    } else if d.month < 12 {
        Date { year: d.year, month: d.month + 1, day: 1 }
    } else {
        Date { year: d.year + 1, month: 1, day: 1 }
    }
}

pub fn prev_date(d: &Date) -> (r: Date)
    requires
        d.wf(),
    ensures
        r == spec_prev_date(*d),
        r.calendar_valid(),
        year_representable(r.year as int) ==> r.wf(),
{
    if d.day > 1 {
        Date { year: d.year, month: d.month, day: d.day - 1 }
    } else if d.month > 1 {
        Date { year: d.year, month: d.month - 1, day: month_length(d.year, d.month - 1) }
    } else {
        Date { year: d.year - 1, month: 12, day: 31 }
    }
}

/// A civil date and time of day with nanosecond precision; where it stands
/// for an instant, the instant is the one this civil time names in UTC.
#[derive(Clone, Copy, Debug, PartialEq, Eq, Structural)]
pub struct Timestamp {
    pub year: i32,
    pub month: u8,
    pub day: u8,
    pub hour: u8,
    pub minute: u8,
    pub second: u8,
    pub nanosecond: u32,
}

impl Timestamp {
    pub open spec fn spec_date(self) -> Date {
        Date { year: self.year, month: self.month, day: self.day }
    }

    /// Everything but the year range: the date fields name a calendar
    /// day and the time of day is in bounds.
    pub open spec fn fields_valid(self) -> bool {
        &&& self.spec_date().calendar_valid()
        &&& self.hour <= 23
        &&& self.minute <= 59
        &&& self.second <= 59
        &&& self.nanosecond <= 999_999_999
    }

    pub open spec fn wf(self) -> bool {
        year_representable(self.year as int) && self.fields_valid()
    }

    pub fn date(&self) -> (r: Date)
        ensures
            r == self.spec_date(),
    {
        Date { year: self.year, month: self.month, day: self.day }
    }

    /// Builds a timestamp, or nothing where the fields name no
    /// representable instant.
    pub fn new(year: i32, month: u8, day: u8, hour: u8, minute: u8, second: u8, nanosecond: u32)
        -> (r: Option<Timestamp>)
        ensures
            r matches Some(t) ==> t == (Timestamp { year, month, day, hour, minute, second, nanosecond })
                && t.wf(),
            r is None ==> !(Timestamp { year, month, day, hour, minute, second, nanosecond }).wf(),
    {
        let date = Date::new(year, month, day);
        if date.is_some() && hour <= 23 && minute <= 59 && second <= 59 && nanosecond
            <= 999_999_999 {
            Some(Timestamp { year, month, day, hour, minute, second, nanosecond })
        } else {
            None
        }
    }
}

/// The seconds elapsed since this timestamp's midnight.
pub open spec fn spec_seconds_of_day(t: Timestamp) -> int {
    t.hour * 3600 + t.minute * 60 + t.second
}

/// The civil time `off` seconds away from `t`, carrying into the previous
/// or the next day where the time of day runs over; `off` is smaller than
/// one day, so at most one day is crossed.
pub open spec fn spec_shift_timestamp(t: Timestamp, off: int) -> Timestamp {
    let s = spec_seconds_of_day(t) + off;
    if s < 0 {
        let s2 = s + 86400;
        let d = spec_prev_date(t.spec_date());
        Timestamp {
            year: d.year,
            month: d.month,
            day: d.day,
            hour: (s2 / 3600) as u8,
            minute: ((s2 % 3600) / 60) as u8,
            second: (s2 % 60) as u8,
            nanosecond: t.nanosecond,
        }
    } else if s >= 86400 {
        let s2 = s - 86400;
        let d = spec_next_date(t.spec_date());
        Timestamp {
            year: d.year,
            month: d.month,
            day: d.day,
            hour: (s2 / 3600) as u8,
            minute: ((s2 % 3600) / 60) as u8,
            second: (s2 % 60) as u8,
            nanosecond: t.nanosecond,
        }
    } else {
        Timestamp {
            year: t.year,
            month: t.month,
            day: t.day,
            hour: (s / 3600) as u8,
            minute: ((s % 3600) / 60) as u8,
            second: (s % 60) as u8,
            nanosecond: t.nanosecond,
        }
    }
}

proof fn lemma_time_of_day_fields(s: int)
    requires
        0 <= s < 86400,
    ensures
        0 <= s / 3600 <= 23,
        0 <= (s % 3600) / 60 <= 59,
        0 <= s % 60 <= 59,
{
    lemma_div_is_ordered(0, s, 3600);
    lemma_div_is_ordered(s, 86399, 3600);
    assert(86399int / 3600 == 23);
    lemma_div_is_ordered(0, s % 3600, 60);
    lemma_div_is_ordered(s % 3600, 3599, 60);
    assert(3599int / 60 == 59);
}

pub fn add_offset(t: &Timestamp, offset_seconds: i32) -> (r: Timestamp)
    requires
        t.wf(),
        -86400 < offset_seconds < 86400,
    ensures
        r == spec_shift_timestamp(*t, offset_seconds as int),
        r.fields_valid(),
        year_representable(r.year as int) ==> r.wf(),
{
    let day_seconds: i32 = t.hour as i32 * 3600 + t.minute as i32 * 60 + t.second as i32;
    let s: i32 = day_seconds + offset_seconds;
    if s < 0 {
        let s2: u32 = (s + 86400) as u32;
        proof {
            lemma_time_of_day_fields(s2 as int);
            lemma_mod_breakdown(s2 as int, 60, 60);
        }
        let d = prev_date(&t.date());
        Timestamp {
            year: d.year,
            month: d.month,
            day: d.day,
            hour: (s2 / 3600) as u8,
            minute: (s2 % 3600 / 60) as u8,
            second: (s2 % 60) as u8,
            nanosecond: t.nanosecond,
        }
    } else if s >= 86400 {
        let s2: u32 = (s - 86400) as u32;
        proof {
            lemma_time_of_day_fields(s2 as int);
            lemma_mod_breakdown(s2 as int, 60, 60);
        }
        let d = next_date(&t.date());
        Timestamp {
            year: d.year,
            month: d.month,
            day: d.day,
            hour: (s2 / 3600) as u8,
            minute: (s2 % 3600 / 60) as u8,
            second: (s2 % 60) as u8,
            nanosecond: t.nanosecond,
        }
    } else {
        let s2: u32 = s as u32;
        proof {
            lemma_time_of_day_fields(s2 as int);
            lemma_mod_breakdown(s2 as int, 60, 60);
        }
        Timestamp {
            year: t.year,
            month: t.month,
            day: t.day,
            hour: (s2 / 3600) as u8,
            minute: (s2 % 3600 / 60) as u8,
            second: (s2 % 60) as u8,
            nanosecond: t.nanosecond,
        }
    }
}

/// An instant named by its UTC civil time, together with the fixed offset
/// the value is displayed at. Equality is by both parts, as the thirteen
/// wire bytes keep both.
#[derive(Clone, Copy, Debug, PartialEq, Eq, Structural)]
pub struct TimestampTz {
    pub utc: Timestamp,
    pub offset_seconds: i32,
}

impl TimestampTz {
    pub open spec fn wf(self) -> bool {
        self.utc.wf() && tz_offset_representable(self.offset_seconds as int)
    }

    /// Builds a zoned timestamp from its UTC civil time and its offset, or
    /// nothing where either part is not representable.
    pub fn new(utc: Timestamp, offset_seconds: i32) -> (r: Option<TimestampTz>)
        ensures
            r matches Some(z) ==> z == (TimestampTz { utc, offset_seconds }) && z.wf(),
            r is None ==> !(TimestampTz { utc, offset_seconds }).wf(),
    {
        let utc_ok = Timestamp::new(
            utc.year,
            utc.month,
            utc.day,
            utc.hour,
            utc.minute,
            utc.second,
            utc.nanosecond,
        );
        let offset_ok = -72000 <= offset_seconds && offset_seconds <= 86340 && (if offset_seconds
            >= 0 {
            offset_seconds as u32 % 60 == 0
        } else {
            (-offset_seconds) as u32 % 60 == 0
        });
        proof {
            if offset_seconds < 0 {
                let off = offset_seconds as int;
                lemma_fundamental_div_mod(-off, 60);
                lemma_fundamental_div_mod(off, 60);
                if (-off) % 60 == 0 {
                    vstd::arithmetic::div_mod::lemma_fundamental_div_mod_converse(
                        off,
                        60,
                        -((-off) / 60),
                        0,
                    );
                }
                if off % 60 == 0 {
                    vstd::arithmetic::div_mod::lemma_fundamental_div_mod_converse(
                        -off,
                        60,
                        -(off / 60),
                        0,
                    );
                }
            }
        }
        if utc_ok.is_some() && offset_ok {
            Some(TimestampTz { utc, offset_seconds })
        } else {
            None
        }
    }

    /// The wall-clock civil time this value displays as: its UTC time
    /// shifted by its offset. At the very edge of the representable
    /// years the shifted year may step one beyond the wire range; the
    /// fields are still the true wall clock.
    pub fn local(&self) -> (r: Timestamp)
        requires
            self.wf(),
        ensures
            r == spec_shift_timestamp(self.utc, self.offset_seconds as int),
            r.fields_valid(),
            year_representable(r.year as int) ==> r.wf(),
    {
        add_offset(&self.utc, self.offset_seconds)
    }
}

} // verus!
