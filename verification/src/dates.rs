//! Calendar support for the scheduler: parsing of `YYYY-MM-DD` deadline
//! strings into a plain year/month/day record, day-number arithmetic through
//! chrono, and rendering of due-date timestamps.

use vstd::prelude::*;
use vstd::string::StrSliceExecFns;

verus! {

/// Day number of 1970-01-01 in chrono's "days from common era" count,
/// where 0001-01-01 is day 1.
pub const EPOCH_DAYS_FROM_CE: i64 = 719_163;

/// Milliseconds in one day.
pub const MS_PER_DAY: i64 = 86_400_000;

/// Largest timestamp the due-date formatter accepts:
/// 9999-12-31T23:59:59.999Z in epoch milliseconds, the last instant with a
/// four-digit year.
pub const MAX_TIMESTAMP_MS: i64 = 253_402_300_799_999;

/// A calendar date in the proleptic Gregorian calendar, held as plain
/// year / month / day numbers.
#[derive(Clone, Copy, Debug, PartialEq, Eq, Structural)]
pub struct CivilDate {
    pub year: u32,
    pub month: u32,
    pub day: u32,
}

/// `c` is an ASCII decimal digit.
pub open spec fn is_digit(c: char) -> bool {
    48 <= c as u32 <= 57
}

/// Numeric value of an ASCII decimal digit.
pub open spec fn digit_val(c: char) -> int {
    c as u32 - 48
}

/// Gregorian leap-year rule.
pub open spec fn is_leap_year(y: int) -> bool {
    y % 4 == 0 && (y % 100 != 0 || y % 400 == 0)
}

/// Number of days in the given month of the given year.
pub open spec fn days_in_month(y: int, m: int) -> int {
    if m == 2 {
        if is_leap_year(y) {
            29
        } else {
            28
        }
    } else if m == 4 || m == 6 || m == 9 || m == 11 {
        30
    } else {
        31
    }
}

/// The year/month/day numbers name a real calendar date with a four-digit
/// year.
pub open spec fn valid_ymd(y: int, m: int, d: int) -> bool {
    &&& 0 <= y <= 9999
    &&& 1 <= m <= 12
    &&& 1 <= d <= days_in_month(y, m)
}

/// The character sequence has the exact shape `YYYY-MM-DD`.
pub open spec fn date_str_wf(s: Seq<char>) -> bool {
    &&& s.len() == 10
    &&& is_digit(s[0])
    &&& is_digit(s[1])
    &&& is_digit(s[2])
    &&& is_digit(s[3])
    &&& s[4] as u32 == 45
    &&& is_digit(s[5])
    &&& is_digit(s[6])
    &&& s[7] as u32 == 45
    &&& is_digit(s[8])
    &&& is_digit(s[9])
}

/// Year encoded by a well-formed date string.
pub open spec fn year_of(s: Seq<char>) -> int {
    digit_val(s[0]) * 1000 + digit_val(s[1]) * 100 + digit_val(s[2]) * 10 + digit_val(s[3])
}

/// Month encoded by a well-formed date string.
pub open spec fn month_of(s: Seq<char>) -> int {
    digit_val(s[5]) * 10 + digit_val(s[6])
}

/// Day of month encoded by a well-formed date string.
pub open spec fn day_of(s: Seq<char>) -> int {
    digit_val(s[8]) * 10 + digit_val(s[9])
}

/// The character sequence is a well-formed `YYYY-MM-DD` string naming a real
/// calendar date.
pub open spec fn valid_date_str(s: Seq<char>) -> bool {
    date_str_wf(s) && valid_ymd(year_of(s), month_of(s), day_of(s))
}

/// The date named by a valid date string.
pub open spec fn date_of_str(s: Seq<char>) -> CivilDate {
    CivilDate { year: year_of(s) as u32, month: month_of(s) as u32, day: day_of(s) as u32 }
}

impl CivilDate {
    /// The fields name a real calendar date.
    pub open spec fn valid(self) -> bool {
        valid_ymd(self.year as int, self.month as int, self.day as int)
    }
}

/// Leap-year test, matching [`is_leap_year`].
pub fn leap_year(year: u32) -> (r: bool)
    ensures
        r == is_leap_year(year as int),
{
    year % 4 == 0 && (year % 100 != 0 || year % 400 == 0)
}

/// Length of a month, matching [`days_in_month`].
pub fn month_length(year: u32, month: u32) -> (r: u32)
    ensures
        r == days_in_month(year as int, month as int),
{
    if month == 2 {
        if leap_year(year) {
            29
        } else {
            28
        }
    } else if month == 4 || month == 6 || month == 9 || month == 11 {
        30
    } else {
        31
    }
}

/// Parses a deadline string of the exact shape `YYYY-MM-DD` into a
/// [`CivilDate`], rejecting anything else, including shapes that match but
/// name no real date (month 13, February 30, February 29 outside leap
/// years).
pub fn parse_date(s: &str) -> (r: Option<CivilDate>)
    ensures
        match r {
            Some(d) => valid_date_str(s@) && d == date_of_str(s@) && d.valid(),
            None => !valid_date_str(s@),
        },
{
    if s.unicode_len() != 10 {
        return None;
    }
    let c0 = s.get_char(0) as u32;
    let c1 = s.get_char(1) as u32;
    let c2 = s.get_char(2) as u32;
    let c3 = s.get_char(3) as u32;
    let c4 = s.get_char(4) as u32;
    let c5 = s.get_char(5) as u32;
    let c6 = s.get_char(6) as u32;
    let c7 = s.get_char(7) as u32;
    let c8 = s.get_char(8) as u32;
    let c9 = s.get_char(9) as u32;
    if !(48 <= c0 && c0 <= 57 && 48 <= c1 && c1 <= 57 && 48 <= c2 && c2 <= 57 && 48 <= c3
        && c3 <= 57 && c4 == 45 && 48 <= c5 && c5 <= 57 && 48 <= c6 && c6 <= 57 && c7 == 45
        && 48 <= c8 && c8 <= 57 && 48 <= c9 && c9 <= 57) {
        return None;
    }
    let year: u32 = (c0 - 48) * 1000 + (c1 - 48) * 100 + (c2 - 48) * 10 + (c3 - 48);
    let month: u32 = (c5 - 48) * 10 + (c6 - 48);
    let day: u32 = (c8 - 48) * 10 + (c9 - 48);
    if month < 1 || month > 12 {
        return None;
    }
    if day < 1 || day > month_length(year, month) {
        return None;
    }
    Some(CivilDate { year, month, day })
}

/// Day number of a calendar date in chrono's "days from common era" count.
pub uninterp spec fn days_from_ce_of(year: u32, month: u32, day: u32) -> i64;

/// Relies on chrono's `NaiveDate::from_ymd_opt` and
/// `Datelike::num_days_from_ce`: the number of days from the common era to
/// the given proleptic Gregorian date, counting 0001-01-01 as day 1. The
/// result depends on the date alone; for years 0 through 9999 it lies
/// between -365 (0000-01-01) and 3_652_059 (9999-12-31).
#[verifier::external_body]
pub(crate) fn days_from_ce(year: u32, month: u32, day: u32) -> (r: i64)
    requires
        valid_ymd(year as int, month as int, day as int),
    ensures
        r == days_from_ce_of(year, month, day),
        -365 <= r <= 3_652_059,
{
    let date = chrono::NaiveDate::from_ymd_opt(year as i32, month, day)
        .expect("a valid calendar date");
    chrono::Datelike::num_days_from_ce(&date) as i64
}

/// ISO-8601 UTC rendering, `YYYY-MM-DDTHH:MM:SS.sssZ`, of an epoch-millisecond
/// timestamp.
pub uninterp spec fn iso_utc_of(ms: int) -> Seq<char>;

/// Relies on chrono's `DateTime::from_timestamp_millis` and `format`: the
/// ISO-8601 UTC rendering of the given epoch-millisecond timestamp, with
/// millisecond precision and a four-digit year. The result depends on the
/// timestamp alone.
#[verifier::external_body]
pub(crate) fn format_utc_timestamp(ms: i64) -> (r: String)
    requires
        0 <= ms <= MAX_TIMESTAMP_MS,
    ensures
        r@ == iso_utc_of(ms as int),
{
    let moment = chrono::DateTime::<chrono::Utc>::from_timestamp_millis(ms)
        .expect("a timestamp within the formatter's range");
    moment.format("%Y-%m-%dT%H:%M:%S%.3fZ").to_string()
}

} // verus!
