//! Points in time as the server writes them: RFC 3339 timestamps with their
//! UTC offset, read by the `time` crate, and the compact build date
//! `YYYYMMDD-HH:MM:SS` without an offset.
use vstd::prelude::*;
use crate::text::{digit_value, is_digit};

verus! {

/// A date-time with the UTC offset it was written with: the date and the
/// wall-clock time at that offset, to the nanosecond.
#[derive(Debug, Clone, Copy, PartialEq, Eq, Structural)]
pub struct Timestamp {
    pub year: i32,
    pub month: u8,
    pub day: u8,
    pub hour: u8,
    pub minute: u8,
    pub second: u8,
    pub nanosecond: u32,
    /// The offset from UTC, in seconds.
    pub offset_seconds: i32,
}

impl Timestamp {
    pub fn year(&self) -> (r: i32)
        ensures
            r == self.year,
    {
        self.year
    }

    pub fn month(&self) -> (r: u8)
        ensures
            r == self.month,
    {
        self.month
    }

    pub fn day(&self) -> (r: u8)
        ensures
            r == self.day,
    {
        self.day
    }

    pub fn hour(&self) -> (r: u8)
        ensures
            r == self.hour,
    {
        self.hour
    }

    pub fn minute(&self) -> (r: u8)
        ensures
            r == self.minute,
    {
        self.minute
    }

    pub fn second(&self) -> (r: u8)
        ensures
            r == self.second,
    {
        self.second
    }

    pub fn nanosecond(&self) -> (r: u32)
        ensures
            r == self.nanosecond,
    {
        self.nanosecond
    }

    /// The offset from UTC, in seconds.
    pub fn offset_seconds(&self) -> (r: i32)
        ensures
            r == self.offset_seconds,
    {
        self.offset_seconds
    }
}

/// The date-time that `time` reads from an RFC 3339 text, or `None` where the
/// text is not one.
pub uninterp spec fn rfc3339_value(s: Seq<char>) -> Option<Timestamp>;

/// Relies on time::OffsetDateTime::parse with the RFC 3339 description: the
/// date, the time and the offset as written, or `None` where the text is not
/// such a date-time.
#[verifier::external_body]
fn read_rfc3339(s: &str) -> (r: Option<Timestamp>)
    ensures
        r == rfc3339_value(s@),
{
    match time::OffsetDateTime::parse(s, &time::format_description::well_known::Rfc3339) {
        Ok(t) => Some(Timestamp {
            year: t.year(),
            month: t.month() as u8,
            day: t.day(),
            hour: t.hour(),
            minute: t.minute(),
            second: t.second(),
            nanosecond: t.nanosecond(),
            offset_seconds: t.offset().whole_seconds(),
        }),
        Err(_) => None,
    }
}

/// Reads an RFC 3339 timestamp, keeping its UTC offset and its fraction of a
/// second.
pub fn parse_timestamp(s: &str) -> (r: Option<Timestamp>)
    ensures
        r == rfc3339_value(s@),
{
    read_rfc3339(s)
}

pub open spec fn is_leap_year(y: int) -> bool {
    y % 4 == 0 && (y % 100 != 0 || y % 400 == 0)
}

pub open spec fn days_in_month(y: int, m: int) -> int {
    if m == 2 {
        if is_leap_year(y) {
            29
        } else {
            28
        }
    } else if m == 4 || m == 6 || m == 9 || m == 11 {
        30
    } else {
        31
    }
}

/// A day of the proleptic Gregorian calendar within the years that `time`
/// represents.
pub open spec fn valid_date(y: int, m: int, d: int) -> bool {
    &&& -9999 <= y <= 9999
    &&& 1 <= m <= 12
    &&& 1 <= d <= days_in_month(y, m)
}

/// Relies on time::Date::from_calendar_date (and time::Month::try_from for the
/// month number): whether the year, month and day name a date.
#[verifier::external_body]
fn is_calendar_date(y: i32, m: u8, d: u8) -> (r: bool)
    ensures
        r == valid_date(y as int, m as int, d as int),
{
    match time::Month::try_from(m) {
        Ok(month) => time::Date::from_calendar_date(y, month, d).is_ok(),
        Err(_) => false,
    }
}

/// The layout of a build date, as a refusal states it.
pub const BUILD_DATE_FORMAT: &'static str = "YYYYMMDD-HH:MM:SS";

/// The date and wall-clock time at which the server was built, with no offset.
#[derive(Debug, Clone, Copy, PartialEq, Eq, Structural)]
pub struct BuildDate {
    pub year: i32,
    pub month: u8,
    pub day: u8,
    pub hour: u8,
    pub minute: u8,
    pub second: u8,
}

impl BuildDate {
    pub fn year(&self) -> (r: i32)
        ensures
            r == self.year,
    {
        self.year
    }

    pub fn month(&self) -> (r: u8)
        ensures
            r == self.month,
    {
        self.month
    }

    pub fn day(&self) -> (r: u8)
        ensures
            r == self.day,
    {
        self.day
    }

    pub fn hour(&self) -> (r: u8)
        ensures
            r == self.hour,
    {
        self.hour
    }

    pub fn minute(&self) -> (r: u8)
        ensures
            r == self.minute,
    {
        self.minute
    }

    pub fn second(&self) -> (r: u8)
        ensures
            r == self.second,
    {
        self.second
    }
}

/// The number written by the two digits at `i`.
pub open spec fn two_digits(s: Seq<char>, i: int) -> int {
    digit_value(s[i]) * 10 + digit_value(s[i + 1])
}

/// The text has the shape `YYYYMMDD-HH:MM:SS`.
pub open spec fn build_date_shape(s: Seq<char>) -> bool {
    &&& s.len() == 17
    &&& s[8] == '-'
    &&& s[11] == ':'
    &&& s[14] == ':'
    &&& forall|k: int| 0 <= k < 17 && k != 8 && k != 11 && k != 14 ==> is_digit(#[trigger] s[k])
}

/// The year that the first four digits write.
pub open spec fn build_year(s: Seq<char>) -> int {
    two_digits(s, 0) * 100 + two_digits(s, 2)
}

/// The text is a build date: the shape, a calendar date, and a time of day.
pub open spec fn is_build_date(s: Seq<char>) -> bool {
    &&& build_date_shape(s)
    &&& valid_date(build_year(s), two_digits(s, 4), two_digits(s, 6))
    &&& two_digits(s, 9) < 24
    &&& two_digits(s, 12) < 60
    &&& two_digits(s, 15) < 60
}

fn two_digits_at(s: &str, i: usize) -> (r: u8)
    requires
        i < 16,
        s@.len() == 17,
        is_digit(s@[i as int]),
        is_digit(s@[i + 1]),
    ensures
        r == two_digits(s@, i as int),
{
    let a = s.get_char(i);
    let b = s.get_char(i + 1);
    ((a as u32 - '0' as u32) * 10 + (b as u32 - '0' as u32)) as u8
}

/// Reads a build date of the form `YYYYMMDD-HH:MM:SS`; `None` where the text
/// has another shape or names no date or time of day.
pub fn parse_build_date(s: &str) -> (r: Option<BuildDate>)
    ensures
        r is Some <==> is_build_date(s@),
        r matches Some(d) ==> {
            &&& d.year == build_year(s@)
            &&& d.month == two_digits(s@, 4)
            &&& d.day == two_digits(s@, 6)
            &&& d.hour == two_digits(s@, 9)
            &&& d.minute == two_digits(s@, 12)
            &&& d.second == two_digits(s@, 15)
        },
{
    if s.unicode_len() != 17 {
        return None;
    }
    let mut k: usize = 0;
    while k < 17
        invariant
            s@.len() == 17,
            k <= 17,
            forall|q: int| 0 <= q < k && q != 8 && q != 11 && q != 14 ==> is_digit(#[trigger] s@[q]),
        decreases 17 - k,
    {
        if k != 8 && k != 11 && k != 14 {
            let c = s.get_char(k);
            if !('0' <= c && c <= '9') {
                return None;
            }
        }
        k = k + 1;
    }
    if s.get_char(8) != '-' || s.get_char(11) != ':' || s.get_char(14) != ':' {
        return None;
    }
    let year = two_digits_at(s, 0) as i32 * 100 + two_digits_at(s, 2) as i32;
    let month = two_digits_at(s, 4);
    let day = two_digits_at(s, 6);
    let hour = two_digits_at(s, 9);
    let minute = two_digits_at(s, 12);
    let second = two_digits_at(s, 15);
    if !is_calendar_date(year, month, day) || hour >= 24 || minute >= 60 || second >= 60 {
        return None;
    }
    Some(BuildDate { year, month, day, hour, minute, second })
}

} // verus!
