//! Calendar dates written as `YYYY-MM-DD`.

use chrono::Datelike;
use vstd::prelude::*;

verus! {

/// A day of the proleptic Gregorian calendar.
#[derive(Clone, Copy, Debug, PartialEq, Eq, Structural)]
pub struct CalendarDate {
    pub year: i32,
    pub month: u32,
    pub day: u32,
}

pub open spec fn is_ascii_digit(c: char) -> bool {
    '0' <= c && c <= '9'
}

pub open spec fn digit_value(c: char) -> int {
    c as int - '0' as int
}

/// Four digits, a dash, two digits, a dash and two digits.
pub open spec fn is_ymd_shape(s: Seq<char>) -> bool {
    &&& s.len() == 10
    &&& s[4] == '-'
    &&& s[7] == '-'
    &&& forall|i: int| 0 <= i < 10 && i != 4 && i != 7 ==> is_ascii_digit(#[trigger] s[i])
}

pub open spec fn ymd_year(s: Seq<char>) -> int {
    1000 * digit_value(s[0]) + 100 * digit_value(s[1]) + 10 * digit_value(s[2]) + digit_value(s[3])
}

pub open spec fn ymd_month(s: Seq<char>) -> int {
    10 * digit_value(s[5]) + digit_value(s[6])
}

pub open spec fn ymd_day(s: Seq<char>) -> int {
    10 * digit_value(s[8]) + digit_value(s[9])
}

pub open spec fn is_leap_year(y: int) -> bool {
    (y % 4 == 0 && y % 100 != 0) || y % 400 == 0
}

pub open spec fn days_in_month(y: int, m: int) -> int {
    if m == 2 {
        if is_leap_year(y) { 29 } else { 28 }
    } else if m == 4 || m == 6 || m == 9 || m == 11 {
        30
    } else {
        31
    }
}

/// `y-m-d` names a day of the Gregorian calendar.
pub open spec fn is_calendar_date(y: int, m: int, d: int) -> bool {
    1 <= m <= 12 && 1 <= d <= days_in_month(y, m)
}

/// The text is a well-formed `YYYY-MM-DD` date naming a real day.
pub open spec fn is_valid_ymd(s: Seq<char>) -> bool {
    is_ymd_shape(s) && is_calendar_date(ymd_year(s), ymd_month(s), ymd_day(s))
}

impl CalendarDate {
    /// The date that the `YYYY-MM-DD` text `s` names.
    pub open spec fn matches_ymd(self, s: Seq<char>) -> bool {
        self.year == ymd_year(s) && self.month == ymd_month(s) && self.day == ymd_day(s)
    }
}

/// Whether `text` has the `YYYY-MM-DD` shape (digits and dashes only; the
/// numbers themselves are not checked).
pub fn has_ymd_shape(text: &str) -> (r: bool)
    ensures
        r == is_ymd_shape(text@),
{
    if text.unicode_len() != 10 {
        return false;
    }
    let mut i: usize = 0;
    while i < 10
        invariant
            text@.len() == 10,
            0 <= i <= 10,
            forall|k: int| 0 <= k < i ==> (if k == 4 || k == 7 {
                text@[k] == '-'
            } else {
                is_ascii_digit(text@[k])
            }),
        decreases 10 - i,
    {
        let c = text.get_char(i);
        let ok = if i == 4 || i == 7 {
            c == '-'
        } else {
            '0' <= c && c <= '9'
        };
        if !ok {
            return false;
        }
        i = i + 1;
    }
    assert(text@[4] == '-');
    assert(text@[7] == '-');
    true
}

/// Relies on chrono's `NaiveDate::parse_from_str` with the pattern `%Y-%m-%d`:
/// on text of the `YYYY-MM-DD` shape it reads the year (up to four digits),
/// month and day (up to two digits each) and succeeds exactly when they name a
/// day of the proleptic Gregorian calendar; `Datelike` hands the three fields
/// back. On failure the text is chrono's description of the parse error.
#[verifier::external_body]
fn chrono_parse_ymd(text: &str) -> (r: Result<CalendarDate, String>)
    requires
        is_ymd_shape(text@),
    ensures
        match r {
            Ok(d) => is_calendar_date(ymd_year(text@), ymd_month(text@), ymd_day(text@))
                && d.matches_ymd(text@),
            Err(_) => !is_calendar_date(ymd_year(text@), ymd_month(text@), ymd_day(text@)),
        },
{
    match chrono::NaiveDate::parse_from_str(text, "%Y-%m-%d") {
        Ok(d) => Ok(CalendarDate { year: d.year(), month: d.month(), day: d.day() }),
        Err(e) => Err(e.to_string()),
    }
}

/// Why a date text was refused.
#[derive(Clone, Debug, PartialEq, Eq)]
pub enum DateError {
    /// The text is not four digits, a dash, two digits, a dash and two digits.
    Shape,
    /// The numbers name no day of the calendar; chrono's explanation.
    Calendar(String),
}

/// Reads a `YYYY-MM-DD` date. Exactly the texts of that shape that name a real
/// day are accepted.
pub fn parse_ymd(text: &str) -> (r: Result<CalendarDate, DateError>)
    ensures
        r is Ok <==> is_valid_ymd(text@),
        r matches Ok(d) ==> d.matches_ymd(text@),
        r matches Err(DateError::Shape) <==> !is_ymd_shape(text@),
{
    if !has_ymd_shape(text) {
        return Err(DateError::Shape);
    }
    match chrono_parse_ymd(text) {
        Ok(d) => Ok(d),
        Err(reason) => Err(DateError::Calendar(reason)),
    }
}

} // verus!
