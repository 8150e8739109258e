//! The service's three ad-hoc temporal string formats, parsed strictly into
//! plain structured values.
//!
//! Every parser is total and fallible: a malformed string becomes a decode
//! error that the enclosing entity's decode surfaces, never a panic. The one
//! sanctioned irregularity is the empty time-of-day string, which the service
//! uses to mean "no scheduled time".

use vstd::prelude::*;

use crate::digits::digit_val;
use crate::digits::is_digit;
use crate::error::DecodeError;

verus! {

pub open spec fn is_leap_year(y: int) -> bool {
    y % 4 == 0 && (y % 100 != 0 || y % 400 == 0)
}

pub open spec fn days_in_month(y: int, m: int) -> int {
    if m == 2 {
        if is_leap_year(y) {
            29
        } else {
            28
        }
    } else if m == 4 || m == 6 || m == 9 || m == 11 {
        30
    } else {
        31
    }
}

pub open spec fn valid_date(y: int, m: int, d: int) -> bool {
    &&& 0 <= y <= 9999
    &&& 1 <= m <= 12
    &&& 1 <= d <= days_in_month(y, m)
}

pub open spec fn valid_time(h: int, mi: int) -> bool {
    0 <= h <= 23 && 0 <= mi <= 59
}

/// The value of the two digits at `i` and `i + 1`.
pub open spec fn num2(s: Seq<char>, i: int) -> int {
    digit_val(s[i]) * 10 + digit_val(s[i + 1])
}

/// The value of the four digits starting at `i`.
pub open spec fn num4(s: Seq<char>, i: int) -> int {
    num2(s, i) * 100 + num2(s, i + 2)
}

/// A strict `YYYY-MM-DD` string denoting a real calendar date.
pub open spec fn date_str_wf(s: Seq<char>) -> bool {
    &&& s.len() == 10
    &&& is_digit(s[0]) && is_digit(s[1]) && is_digit(s[2]) && is_digit(s[3])
    &&& s[4] == '-'
    &&& is_digit(s[5]) && is_digit(s[6])
    &&& s[7] == '-'
    &&& is_digit(s[8]) && is_digit(s[9])
    &&& valid_date(num4(s, 0), num2(s, 5), num2(s, 8))
}

/// A strict 24-hour `HH:MM` string.
pub open spec fn time_str_wf(s: Seq<char>) -> bool {
    &&& s.len() == 5
    &&& is_digit(s[0]) && is_digit(s[1])
    &&& s[2] == ':'
    &&& is_digit(s[3]) && is_digit(s[4])
    &&& valid_time(num2(s, 0), num2(s, 3))
}

/// A strict `YYYY-MM-DDTHH:MM:SS(+|-)HH:MM` string: an ISO-8601 date-time
/// with an explicit numeric offset (no `Z` shorthand).
pub open spec fn stamp_str_wf(s: Seq<char>) -> bool {
    &&& s.len() == 25
    &&& is_digit(s[0]) && is_digit(s[1]) && is_digit(s[2]) && is_digit(s[3])
    &&& s[4] == '-'
    &&& is_digit(s[5]) && is_digit(s[6])
    &&& s[7] == '-'
    &&& is_digit(s[8]) && is_digit(s[9])
    &&& valid_date(num4(s, 0), num2(s, 5), num2(s, 8))
    &&& s[10] == 'T'
    &&& is_digit(s[11]) && is_digit(s[12])
    &&& s[13] == ':'
    &&& is_digit(s[14]) && is_digit(s[15])
    &&& s[16] == ':'
    &&& is_digit(s[17]) && is_digit(s[18])
    &&& valid_time(num2(s, 11), num2(s, 14))
    &&& 0 <= num2(s, 17) <= 59
    &&& (s[19] == '+' || s[19] == '-')
    &&& is_digit(s[20]) && is_digit(s[21])
    &&& s[22] == ':'
    &&& is_digit(s[23]) && is_digit(s[24])
    &&& 0 <= num2(s, 20) <= 23
    &&& 0 <= num2(s, 23) <= 59
}

/// The signed offset, in minutes east of UTC, written at positions 19..25.
pub open spec fn stamp_offset_minutes(s: Seq<char>) -> int {
    if s[19] == '+' {
        num2(s, 20) * 60 + num2(s, 23)
    } else {
        -(num2(s, 20) * 60 + num2(s, 23))
    }
}

/// A calendar date, as the service writes it: `YYYY-MM-DD`.
#[derive(Clone, Copy, Debug, PartialEq, Eq, Structural)]
pub struct TVMazeDate {
    pub year: u16,
    pub month: u8,
    pub day: u8,
}

impl TVMazeDate {
    pub open spec fn wf(&self) -> bool {
        valid_date(self.year as int, self.month as int, self.day as int)
    }
}

/// A 24-hour wall-clock time.
#[derive(Clone, Copy, Debug, PartialEq, Eq, Structural)]
pub struct ClockTime {
    pub hour: u8,
    pub minute: u8,
}

impl ClockTime {
    pub open spec fn wf(&self) -> bool {
        valid_time(self.hour as int, self.minute as int)
    }
}

/// A time-of-day field, which the service may leave absent by sending an
/// empty string.
#[derive(Clone, Copy, Debug, PartialEq, Eq, Structural)]
pub struct TVMazeTime {
    pub time: Option<ClockTime>,
}

impl TVMazeTime {
    pub open spec fn wf(&self) -> bool {
        match self.time {
            Some(t) => t.wf(),
            None => true,
        }
    }
}

/// An offset-aware date-time: a date, a wall-clock time with seconds, and a
/// fixed offset in minutes east of UTC.
#[derive(Clone, Copy, Debug, PartialEq, Eq, Structural)]
pub struct TVMazeDateTime {
    pub date: TVMazeDate,
    pub time: ClockTime,
    pub second: u8,
    pub offset_minutes: i32,
}

impl TVMazeDateTime {
    pub open spec fn wf(&self) -> bool {
        &&& self.date.wf()
        &&& self.time.wf()
        &&& 0 <= self.second <= 59
        &&& -1439 <= self.offset_minutes <= 1439
    }
}

fn read_num2(s: &str, i: usize) -> (r: Option<u32>)
    requires
        i + 2 <= s@.len(),
        s@.len() <= usize::MAX,
    ensures
        r is Some <==> is_digit(s@[i as int]) && is_digit(s@[i as int + 1]),
        r matches Some(n) ==> n == num2(s@, i as int) && n <= 99,
{
    let c0 = s.get_char(i);
    let c1 = s.get_char(i + 1);
    if '0' <= c0 && c0 <= '9' && '0' <= c1 && c1 <= '9' {
        Some(((c0 as u32) - ('0' as u32)) * 10 + ((c1 as u32) - ('0' as u32)))
    } else {
        None
    }
}

fn read_num4(s: &str, i: usize) -> (r: Option<u32>)
    requires
        i + 4 <= s@.len(),
        s@.len() <= usize::MAX,
    ensures
        r is Some <==> is_digit(s@[i as int]) && is_digit(s@[i as int + 1]) && is_digit(
            s@[i as int + 2],
        ) && is_digit(s@[i as int + 3]),
        r matches Some(n) ==> n == num4(s@, i as int) && n <= 9999,
{
    let hi = read_num2(s, i);
    let lo = read_num2(s, i + 2);
    match (hi, lo) {
        (Some(a), Some(b)) => Some(a * 100 + b),
        _ => None,
    }
}

fn char_at_is(s: &str, i: usize, c: char) -> (r: bool)
    requires
        i < s@.len(),
    ensures
        r <==> s@[i as int] == c,
{
    s.get_char(i) == c
}

fn days_in_month_exec(y: u32, m: u32) -> (r: u32)
    ensures
        r == days_in_month(y as int, m as int),
{
    if m == 2 {
        if y % 4 == 0 && (y % 100 != 0 || y % 400 == 0) {
            29
        } else {
            28
        }
    } else if m == 4 || m == 6 || m == 9 || m == 11 {
        30
    } else {
        31
    }
}

/// Parses a strict `YYYY-MM-DD` date. Succeeds exactly on well-formed
/// strings denoting real calendar dates; anything else — the empty string
/// included — is a date decode error.
pub fn parse_date(s: &str) -> (r: Result<TVMazeDate, DecodeError>)
    ensures
        r == crate::json::spec_parse_date(s@),
        r is Ok <==> date_str_wf(s@),
        r matches Ok(d) ==> d.year == num4(s@, 0) && d.month == num2(s@, 5) && d.day == num2(
            s@,
            8,
        ) && d.wf(),
        r matches Err(e) ==> e == DecodeError::Date,
{
    if s.unicode_len() != 10 {
        return Err(DecodeError::Date);
    }
    let y = match read_num4(s, 0) {
        Some(y) => y,
        None => return Err(DecodeError::Date),
    };
    if !char_at_is(s, 4, '-') || !char_at_is(s, 7, '-') {
        return Err(DecodeError::Date);
    }
    let m = match read_num2(s, 5) {
        Some(m) => m,
        None => return Err(DecodeError::Date),
    };
    let d = match read_num2(s, 8) {
        Some(d) => d,
        None => return Err(DecodeError::Date),
    };
    if m < 1 || m > 12 || d < 1 || d > days_in_month_exec(y, m) {
        return Err(DecodeError::Date);
    }
    Ok(TVMazeDate { year: y as u16, month: m as u8, day: d as u8 })
}

/// Parses a time-of-day field. The empty string means "no scheduled time"
/// and parses to the absent value; a non-empty string must be a strict
/// 24-hour `HH:MM` or it is a time decode error.
pub fn parse_time(s: &str) -> (r: Result<TVMazeTime, DecodeError>)
    ensures
        r == crate::json::spec_parse_time(s@),
        s@.len() == 0 ==> r == Ok::<TVMazeTime, DecodeError>(TVMazeTime { time: None }),
        s@.len() > 0 ==> ((r is Ok) <==> time_str_wf(s@)),
        s@.len() > 0 && r is Ok ==> (r matches Ok(t) && t.time == Some(
            ClockTime { hour: num2(s@, 0) as u8, minute: num2(s@, 3) as u8 },
        )),
        r matches Ok(t) ==> t.wf(),
        r matches Err(e) ==> e == DecodeError::Time,
{
    if s.unicode_len() == 0 {
        return Ok(TVMazeTime { time: None });
    }
    if s.unicode_len() != 5 {
        return Err(DecodeError::Time);
    }
    let h = match read_num2(s, 0) {
        Some(h) => h,
        None => return Err(DecodeError::Time),
    };
    if !char_at_is(s, 2, ':') {
        return Err(DecodeError::Time);
    }
    let m = match read_num2(s, 3) {
        Some(m) => m,
        None => return Err(DecodeError::Time),
    };
    if h > 23 || m > 59 {
        return Err(DecodeError::Time);
    }
    Ok(TVMazeTime { time: Some(ClockTime { hour: h as u8, minute: m as u8 }) })
}

/// Parses a strict offset date-time, `YYYY-MM-DDTHH:MM:SS(+|-)HH:MM`.
/// Succeeds exactly on well-formed strings; the offset becomes signed
/// minutes east of UTC.
pub fn parse_stamp(s: &str) -> (r: Result<TVMazeDateTime, DecodeError>)
    ensures
        r == crate::json::spec_parse_stamp(s@),
        r is Ok <==> stamp_str_wf(s@),
        r matches Ok(t) ==> {
            &&& t.date.year == num4(s@, 0)
            &&& t.date.month == num2(s@, 5)
            &&& t.date.day == num2(s@, 8)
            &&& t.time.hour == num2(s@, 11)
            &&& t.time.minute == num2(s@, 14)
            &&& t.second == num2(s@, 17)
            &&& t.offset_minutes == stamp_offset_minutes(s@)
            &&& t.wf()
        },
        r matches Err(e) ==> e == DecodeError::Timestamp,
{
    if s.unicode_len() != 25 {
        return Err(DecodeError::Timestamp);
    }
    let y = match read_num4(s, 0) {
        Some(y) => y,
        None => return Err(DecodeError::Timestamp),
    };
    if !char_at_is(s, 4, '-') || !char_at_is(s, 7, '-') {
        return Err(DecodeError::Timestamp);
    }
    let mo = match read_num2(s, 5) {
        Some(m) => m,
        None => return Err(DecodeError::Timestamp),
    };
    let d = match read_num2(s, 8) {
        Some(d) => d,
        None => return Err(DecodeError::Timestamp),
    };
    if mo < 1 || mo > 12 || d < 1 || d > days_in_month_exec(y, mo) {
        return Err(DecodeError::Timestamp);
    }
    if !char_at_is(s, 10, 'T') {
        return Err(DecodeError::Timestamp);
    }
    let h = match read_num2(s, 11) {
        Some(h) => h,
        None => return Err(DecodeError::Timestamp),
    };
    if !char_at_is(s, 13, ':') {
        return Err(DecodeError::Timestamp);
    }
    let mi = match read_num2(s, 14) {
        Some(m) => m,
        None => return Err(DecodeError::Timestamp),
    };
    if !char_at_is(s, 16, ':') {
        return Err(DecodeError::Timestamp);
    }
    let sec = match read_num2(s, 17) {
        Some(x) => x,
        None => return Err(DecodeError::Timestamp),
    };
    if h > 23 || mi > 59 || sec > 59 {
        return Err(DecodeError::Timestamp);
    }
    let plus = char_at_is(s, 19, '+');
    if !plus && !char_at_is(s, 19, '-') {
        return Err(DecodeError::Timestamp);
    }
    let oh = match read_num2(s, 20) {
        Some(x) => x,
        None => return Err(DecodeError::Timestamp),
    };
    if !char_at_is(s, 22, ':') {
        return Err(DecodeError::Timestamp);
    }
    let om = match read_num2(s, 23) {
        Some(x) => x,
        None => return Err(DecodeError::Timestamp),
    };
    if oh > 23 || om > 59 {
        return Err(DecodeError::Timestamp);
    }
    let total = (oh * 60 + om) as i32;
    let offset = if plus {
        total
    } else {
        -total
    };
    Ok(
        TVMazeDateTime {
            date: TVMazeDate { year: y as u16, month: mo as u8, day: d as u8 },
            time: ClockTime { hour: h as u8, minute: mi as u8 },
            second: sec as u8,
            offset_minutes: offset,
        },
    )
}

} // verus!
