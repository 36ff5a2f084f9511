//! Calendar dates and naive timestamps as plain values.
//!
//! The backend reports dates as `YYYY-MM-DD` and timestamps as
//! `YYYY-MM-DDThh:mm` strings without a timezone. The library keeps them as
//! plain year/month/day (plus hour/minute) values so that comparing and
//! advancing them is ordinary verified arithmetic.

use vstd::prelude::*;

use crate::error::Error;

verus! {

/// A calendar day in the proleptic Gregorian calendar, restricted to the
/// four-digit years the wire format can carry.
#[derive(Debug, Clone, Copy, PartialEq, Eq, Hash, Structural)]
pub struct Date {
    pub year: u16,
    pub month: u8,
    pub day: u8,
}

/// A naive timestamp: a calendar day plus a wall-clock minute, with no
/// timezone attached.
#[derive(Debug, Clone, Copy, PartialEq, Eq, Hash, Structural)]
pub struct DateTime {
    pub date: Date,
    pub hour: u8,
    pub minute: u8,
}

pub open spec fn is_leap_year(year: int) -> bool {
    year % 4 == 0 && (year % 100 != 0 || year % 400 == 0)
}

pub open spec fn days_in_month(year: int, month: int) -> int {
    if month == 2 {
        if is_leap_year(year) {
            29
        } else {
            28
        }
    } else if month == 4 || month == 6 || month == 9 || month == 11 {
        30
    } else {
        31
    }
}

pub open spec fn date_valid(d: Date) -> bool {
    &&& d.year <= 9999
    &&& 1 <= d.month <= 12
    &&& 1 <= d.day <= days_in_month(d.year as int, d.month as int)
}

pub open spec fn datetime_valid(t: DateTime) -> bool {
    date_valid(t.date) && t.hour < 24 && t.minute < 60
}

/// Number of days in the given month.
pub fn month_length(year: u16, month: u8) -> (r: u8)
    requires
        1 <= month <= 12,
    ensures
        r == days_in_month(year as int, month as int),
{
    if month == 2 {
        if year % 4 == 0 && (year % 100 != 0 || year % 400 == 0) {
            29
        } else {
            28
        }
    } else if month == 4 || month == 6 || month == 9 || month == 11 {
        30
    } else {
        31
    }
}

pub open spec fn is_digit(c: char) -> bool {
    '0' <= c && c <= '9'
}

pub open spec fn digit_value(c: char) -> int {
    c as u32 - '0' as u32
}

/// The digit at position `i`, or `None` if the character there is no digit.
fn read_digit(s: &str, i: usize) -> (r: Option<u8>)
    requires
        i < s@.len(),
    ensures
        match r {
            Some(d) => is_digit(s@[i as int]) && d == digit_value(s@[i as int]),
            None => !is_digit(s@[i as int]),
        },
{
    let c = s.get_char(i);
    if '0' <= c && c <= '9' {
        Some((c as u32 - 48) as u8)
    } else {
        None
    }
}

/// The two-digit number starting at position `i`, or `None` if either
/// character is no digit.
fn read_two_digits(s: &str, i: usize) -> (r: Option<u8>)
    requires
        i + 1 < s@.len(),
        s@.len() <= usize::MAX,
    ensures
        match r {
            Some(d) => is_digit(s@[i as int]) && is_digit(s@[i as int + 1]) && d == 10
                * digit_value(s@[i as int]) + digit_value(s@[i as int + 1]),
            None => !(is_digit(s@[i as int]) && is_digit(s@[i as int + 1])),
        },
{
    match (read_digit(s, i), read_digit(s, i + 1)) {
        (Some(hi), Some(lo)) => Some(10 * hi + lo),
        _ => None,
    }
}

pub open spec fn date_text_shape(s: Seq<char>) -> bool {
    &&& s.len() == 10
    &&& is_digit(s[0]) && is_digit(s[1]) && is_digit(s[2]) && is_digit(s[3])
    &&& s[4] == '-'
    &&& is_digit(s[5]) && is_digit(s[6])
    &&& s[7] == '-'
    &&& is_digit(s[8]) && is_digit(s[9])
}

/// The date a well-shaped `YYYY-MM-DD` text denotes.
pub open spec fn date_of_text(s: Seq<char>) -> Date {
    Date {
        year: (1000 * digit_value(s[0]) + 100 * digit_value(s[1]) + 10 * digit_value(s[2])
            + digit_value(s[3])) as u16,
        month: (10 * digit_value(s[5]) + digit_value(s[6])) as u8,
        day: (10 * digit_value(s[8]) + digit_value(s[9])) as u8,
    }
}

/// A text is accepted as a date when it is well shaped and denotes a day
/// that exists in the calendar.
pub open spec fn date_text_valid(s: Seq<char>) -> bool {
    date_text_shape(s) && date_valid(date_of_text(s))
}

/// Parses a `YYYY-MM-DD` wire date.
pub fn parse_date(s: &str) -> (r: Result<Date, Error>)
    ensures
        date_text_valid(s@) ==> r == Ok::<Date, Error>(date_of_text(s@)),
        !date_text_valid(s@) ==> r == Err::<Date, Error>(Error::MalformedDate),
{
    if s.unicode_len() != 10 {
        return Err(Error::MalformedDate);
    }
    if !(s.get_char(4) == '-' && s.get_char(7) == '-') {
        return Err(Error::MalformedDate);
    }
    let (hi, lo) = match (read_two_digits(s, 0), read_two_digits(s, 2)) {
        (Some(hi), Some(lo)) => (hi, lo),
        _ => { return Err(Error::MalformedDate) },
    };
    let year: u16 = 100 * (hi as u16) + lo as u16;
    let (month, day) = match (read_two_digits(s, 5), read_two_digits(s, 8)) {
        (Some(month), Some(day)) => (month, day),
        _ => { return Err(Error::MalformedDate) },
    };
    let date = Date { year, month, day };
    if 1 <= month && month <= 12 && 1 <= day && day <= month_length(year, month) {
        Ok(date)
    } else {
        Err(Error::MalformedDate)
    }
}

pub open spec fn datetime_text_shape(s: Seq<char>) -> bool {
    &&& s.len() == 16
    &&& date_text_shape(s.subrange(0, 10))
    &&& s[10] == 'T'
    &&& is_digit(s[11]) && is_digit(s[12])
    &&& s[13] == ':'
    &&& is_digit(s[14]) && is_digit(s[15])
}

/// The timestamp a well-shaped `YYYY-MM-DDThh:mm` text denotes.
pub open spec fn datetime_of_text(s: Seq<char>) -> DateTime {
    DateTime {
        date: date_of_text(s.subrange(0, 10)),
        hour: (10 * digit_value(s[11]) + digit_value(s[12])) as u8,
        minute: (10 * digit_value(s[14]) + digit_value(s[15])) as u8,
    }
}

/// A text is accepted as a timestamp when it is well shaped and denotes an
/// existing day and a wall-clock minute.
pub open spec fn datetime_text_valid(s: Seq<char>) -> bool {
    datetime_text_shape(s) && datetime_valid(datetime_of_text(s))
}

/// Parses a `YYYY-MM-DDThh:mm` wire timestamp.
pub fn parse_datetime(s: &str) -> (r: Result<DateTime, Error>)
    ensures
        datetime_text_valid(s@) ==> r == Ok::<DateTime, Error>(datetime_of_text(s@)),
        !datetime_text_valid(s@) ==> r == Err::<DateTime, Error>(Error::MalformedDateTime),
{
    if s.unicode_len() != 16 {
        return Err(Error::MalformedDateTime);
    }
    if !(s.get_char(10) == 'T' && s.get_char(13) == ':') {
        return Err(Error::MalformedDateTime);
    }
    let front = s.substring_char(0, 10);
    assert(front@ =~= s@.subrange(0, 10));
    let date = match parse_date(front) {
        Ok(date) => date,
        Err(_) => { return Err(Error::MalformedDateTime) },
    };
    let (hour, minute) = match (read_two_digits(s, 11), read_two_digits(s, 14)) {
        (Some(hour), Some(minute)) => (hour, minute),
        _ => { return Err(Error::MalformedDateTime) },
    };
    if hour < 24 && minute < 60 {
        Ok(DateTime { date, hour, minute })
    } else {
        Err(Error::MalformedDateTime)
    }
}

/// The day after `d` in the calendar.
pub open spec fn date_succ(d: Date) -> Date {
    if d.day < days_in_month(d.year as int, d.month as int) {
        Date { year: d.year, month: d.month, day: (d.day + 1) as u8 }
    } else if d.month < 12 {
        Date { year: d.year, month: (d.month + 1) as u8, day: 1 }
    } else {
        Date { year: (d.year + 1) as u16, month: 1, day: 1 }
    }
}

/// Advances a date by one day.
///
/// The last representable day has no successor and is excluded.
pub fn next_day(d: Date) -> (r: Date)
    requires
        date_valid(d),
        !(d.year == 9999 && d.month == 12 && d.day == 31),
    ensures
        r == date_succ(d),
        date_valid(r),
{
    if d.day < month_length(d.year, d.month) {
        Date { year: d.year, month: d.month, day: d.day + 1 }
    } else if d.month < 12 {
        Date { year: d.year, month: d.month + 1, day: 1 }
    } else {
        Date { year: d.year + 1, month: 1, day: 1 }
    }
}

} // verus!
