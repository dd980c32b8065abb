//! Calendar time as the session records it, and its two text forms.

use crate::decimal::{decimal, digit_char, lemma_decimal_is_digits};
use chrono::{Datelike, Timelike};
use vstd::prelude::*;

verus! {

/// The first year that a `Timestamp` can hold.
pub const MIN_YEAR: i32 = -262143;

/// The last year that a `Timestamp` can hold.
pub const MAX_YEAR: i32 = 262142;

/// A date and a time of day, as numbers.
pub struct CalendarTime {
    pub year: int,
    pub month: int,
    pub day: int,
    pub hour: int,
    pub minute: int,
    pub second: int,
}

/// The calendar time with these parts.
pub open spec fn calendar_time(
    year: int,
    month: int,
    day: int,
    hour: int,
    minute: int,
    second: int,
) -> CalendarTime {
    CalendarTime { year, month, day, hour, minute, second }
}

/// Leap years of the proleptic Gregorian calendar.
pub open spec fn is_leap_year(year: int) -> bool {
    year % 4 == 0 && (year % 100 != 0 || year % 400 == 0)
}

/// The number of days of `month` in `year`.
pub open spec fn days_in_month(year: int, month: int) -> int {
    if month == 2 {
        if is_leap_year(year) {
            29
        } else {
            28
        }
    } else if month == 4 || month == 6 || month == 9 || month == 11 {
        30
    } else {
        31
    }
}

/// A day that the calendar has, in a year within range, and a time of that day.
pub open spec fn is_calendar_time(t: CalendarTime) -> bool {
    &&& MIN_YEAR <= t.year <= MAX_YEAR
    &&& 1 <= t.month <= 12
    &&& 1 <= t.day <= days_in_month(t.year, t.month)
    &&& 0 <= t.hour <= 23
    &&& 0 <= t.minute <= 59
    &&& 0 <= t.second <= 59
}

/// `n` as two digits, for `0 <= n <= 99`.
pub open spec fn two_digits(n: int) -> Seq<char> {
    seq![digit_char(n / 10), digit_char(n % 10)]
}

/// `n` with zeros in front up to four digits.
pub open spec fn four_digits_or_more(n: nat) -> Seq<char> {
    if n <= 9999 {
        two_digits((n / 100) as int) + two_digits((n % 100) as int)
    } else {
        decimal(n)
    }
}

/// A year as text: four digits from 0 to 9999, otherwise a sign and at least
/// four digits.
pub open spec fn year_text(year: int) -> Seq<char> {
    if 0 <= year <= 9999 {
        four_digits_or_more(year as nat)
    } else if year < 0 {
        seq!['-'] + four_digits_or_more((-year) as nat)
    } else {
        seq!['+'] + four_digits_or_more(year as nat)
    }
}

/// Year, month and day joined by `-`, then `between`, then hour, minute and
/// second joined by `within`.
pub open spec fn stamp_text(t: CalendarTime, between: char, within: char) -> Seq<char> {
    year_text(t.year) + seq!['-'] + two_digits(t.month) + seq!['-'] + two_digits(t.day) + seq![
        between,
    ] + two_digits(t.hour) + seq![within] + two_digits(t.minute) + seq![within] + two_digits(
        t.second,
    )
}

/// The form shown in a document: `2024-03-09 14:05:59`.
pub open spec fn display_text(t: CalendarTime) -> Seq<char> {
    stamp_text(t, ' ', ':')
}

/// The form used in a file name: `2024-03-09_14-05-59`.
pub open spec fn file_stamp_text(t: CalendarTime) -> Seq<char> {
    stamp_text(t, '_', '-')
}

/// A valid local date and time of day, to the second.
#[derive(Clone, Copy, Debug, PartialEq, Eq)]
pub struct Timestamp {
    year: i32,
    month: u32,
    day: u32,
    hour: u32,
    minute: u32,
    second: u32,
}

impl View for Timestamp {
    type V = CalendarTime;

    closed spec fn view(&self) -> CalendarTime {
        calendar_time(
            self.year as int,
            self.month as int,
            self.day as int,
            self.hour as int,
            self.minute as int,
            self.second as int,
        )
    }
}

fn leap_year(year: i32) -> (b: bool)
    ensures
        b == is_leap_year(year as int),
{
    year % 4 == 0 && (year % 100 != 0 || year % 400 == 0)
}

fn month_length(year: i32, month: u32) -> (n: u32)
    ensures
        n == days_in_month(year as int, month as int),
{
    if month == 2 {
        if leap_year(year) {
            29
        } else {
            28
        }
    } else if month == 4 || month == 6 || month == 9 || month == 11 {
        30
    } else {
        31
    }
}

/// Reads the system clock through `chrono::Local::now`, takes the local date
/// and time with `DateTime::naive_local`, and hands out its parts as
/// `Datelike` and `Timelike` give them. Not proved, but taken from chrono:
/// whatever the clock says, the parts name a day of chrono's calendar, in a
/// year from `MIN_YEAR` to `MAX_YEAR`, and a time of that day with a second
/// below 60. The call does not return if the clock is set before 1970 or
/// beyond the years that chrono can hold.
#[verifier::external_body]
fn local_clock() -> (parts: (i32, u32, u32, u32, u32, u32))
    ensures
        is_calendar_time(
            calendar_time(
                parts.0 as int,
                parts.1 as int,
                parts.2 as int,
                parts.3 as int,
                parts.4 as int,
                parts.5 as int,
            ),
        ),
{
    let now = chrono::Local::now().naive_local();
    (now.year(), now.month(), now.day(), now.hour(), now.minute(), now.second())
}

/// Makes a date with `chrono::NaiveDate::from_ymd_opt` and a time on it with
/// `NaiveDate::and_hms_opt`, and formats the two with
/// `NaiveDateTime::format`, for the two patterns that the library uses. Not
/// proved, but taken from chrono: the date and the time are accepted exactly
/// when they are a calendar time; `%Y` gives the year as `year_text` says;
/// `%m`, `%d`, `%H`, `%M` and `%S` give two digits each; every other
/// character of the pattern stands for itself. `None` stands for a date or a
/// time that chrono does not accept.
#[verifier::external_body]
fn format_calendar_time(
    year: i32,
    month: u32,
    day: u32,
    hour: u32,
    minute: u32,
    second: u32,
    pattern: &str,
) -> (text: Option<String>)
    requires
        pattern@ == "%Y-%m-%d %H:%M:%S"@ || pattern@ == "%Y-%m-%d_%H-%M-%S"@,
    ensures
        text is Some <==> is_calendar_time(
            calendar_time(
                year as int,
                month as int,
                day as int,
                hour as int,
                minute as int,
                second as int,
            ),
        ),
        text is Some && pattern@ == "%Y-%m-%d %H:%M:%S"@ ==> text->0@ == display_text(
            calendar_time(
                year as int,
                month as int,
                day as int,
                hour as int,
                minute as int,
                second as int,
            ),
        ),
        text is Some && pattern@ == "%Y-%m-%d_%H-%M-%S"@ ==> text->0@ == file_stamp_text(
            calendar_time(
                year as int,
                month as int,
                day as int,
                hour as int,
                minute as int,
                second as int,
            ),
        ),
{
    let date = chrono::NaiveDate::from_ymd_opt(year, month, day)?;
    let time = date.and_hms_opt(hour, minute, second)?;
    Some(time.format(pattern).to_string())
}

impl Timestamp {
    /// Every timestamp is a time that the calendar has.
    #[verifier::type_invariant]
    pub open spec fn valid(self) -> bool {
        is_calendar_time(self@)
    }

    /// The timestamp with these parts, where they name a day of the calendar
    /// and a time of day.
    pub fn new(year: i32, month: u32, day: u32, hour: u32, minute: u32, second: u32) -> (r: Option<
        Timestamp,
    >)
        ensures
            ({
                let t = calendar_time(
                    year as int,
                    month as int,
                    day as int,
                    hour as int,
                    minute as int,
                    second as int,
                );
                if is_calendar_time(t) {
                    r matches Some(ts) && ts@ == t
                } else {
                    r is None
                }
            }),
    {
        if year < MIN_YEAR || year > MAX_YEAR || month < 1 || month > 12 || day < 1 || hour > 23
            || minute > 59 || second > 59 {
            return None;
        }
        if day > month_length(year, month) {
            return None;
        }
        Some(Timestamp { year, month, day, hour, minute, second })
    }

    /// The local date and time that the system clock shows.
    pub fn now() -> (ts: Timestamp)
        ensures
            is_calendar_time(ts@),
    {
        let parts = local_clock();
        Timestamp {
            year: parts.0,
            month: parts.1,
            day: parts.2,
            hour: parts.3,
            minute: parts.4,
            second: parts.5,
        }
    }

    pub fn year(&self) -> (y: i32)
        ensures
            y == self@.year,
            is_calendar_time(self@),
    {
        proof {
            use_type_invariant(self);
        }
        self.year
    }

    pub fn month(&self) -> (m: u32)
        ensures
            m == self@.month,
            is_calendar_time(self@),
    {
        proof {
            use_type_invariant(self);
        }
        self.month
    }

    pub fn day(&self) -> (d: u32)
        ensures
            d == self@.day,
            is_calendar_time(self@),
    {
        proof {
            use_type_invariant(self);
        }
        self.day
    }

    pub fn hour(&self) -> (h: u32)
        ensures
            h == self@.hour,
            is_calendar_time(self@),
    {
        proof {
            use_type_invariant(self);
        }
        self.hour
    }

    pub fn minute(&self) -> (m: u32)
        ensures
            m == self@.minute,
            is_calendar_time(self@),
    {
        proof {
            use_type_invariant(self);
        }
        self.minute
    }

    pub fn second(&self) -> (s: u32)
        ensures
            s == self@.second,
            is_calendar_time(self@),
    {
        proof {
            use_type_invariant(self);
        }
        self.second
    }

    /// The timestamp as a document shows it, such as `2024-03-09 14:05:59`.
    pub fn display(&self) -> (s: String)
        ensures
            s@ == display_text(self@),
            is_calendar_time(self@),
    {
        proof {
            use_type_invariant(self);
        }
        let text = format_calendar_time(
            self.year,
            self.month,
            self.day,
            self.hour,
            self.minute,
            self.second,
            "%Y-%m-%d %H:%M:%S",
        );
        match text {
            Some(s) => s,
            None => String::new(),
        }
    }

    /// The timestamp as a file name holds it, such as `2024-03-09_14-05-59`.
    pub fn file_stamp(&self) -> (s: String)
        ensures
            s@ == file_stamp_text(self@),
            is_calendar_time(self@),
    {
        proof {
            use_type_invariant(self);
        }
        let text = format_calendar_time(
            self.year,
            self.month,
            self.day,
            self.hour,
            self.minute,
            self.second,
            "%Y-%m-%d_%H-%M-%S",
        );
        match text {
            Some(s) => s,
            None => String::new(),
        }
    }
}

/// The text forms of a calendar time hold no line feed.
pub proof fn lemma_display_text_is_one_line(t: CalendarTime)
    requires
        is_calendar_time(t),
    ensures
        forall|i: int| 0 <= i < display_text(t).len() ==> display_text(t)[i] != '\n',
        forall|i: int| 0 <= i < file_stamp_text(t).len() ==> file_stamp_text(t)[i] != '\n',
{
    lemma_year_text_is_one_line(t.year);
}

proof fn lemma_year_text_is_one_line(year: int)
    requires
        MIN_YEAR <= year <= MAX_YEAR,
    ensures
        forall|i: int| 0 <= i < year_text(year).len() ==> year_text(year)[i] != '\n',
{
    if year < 0 {
        lemma_decimal_is_digits((-year) as nat);
    } else {
        lemma_decimal_is_digits(year as nat);
    }
}

} // verus!
