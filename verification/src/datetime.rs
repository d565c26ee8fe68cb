//! Calendar dates, clock times, and the chrono calls that compute on them.
use chrono::{DateTime, Datelike, Local, NaiveDate, NaiveDateTime, TimeDelta, Timelike, Utc};
use vstd::prelude::*;

verus! {

/// Smallest year that chrono's dates can hold.
pub const MIN_YEAR: i32 = -262143i32;

/// Largest year that chrono's dates can hold.
pub const MAX_YEAR: i32 = 262142i32;

/// A day of the proleptic Gregorian calendar.
#[derive(Clone, Copy, Debug, PartialEq, Eq, Structural)]
pub struct CalDate {
    pub year: i32,
    pub month: u32,
    pub day: u32,
}

/// A time of day as chrono's `NaiveTime` holds it: hour, minute, second, and the
/// nanoseconds past that second, where from one billion on they mark a leap second
/// (shown as second 60).
#[derive(Clone, Copy, Debug, PartialEq, Eq, Structural)]
pub struct ClockTime {
    pub hour: u32,
    pub minute: u32,
    pub second: u32,
    pub nanosecond: u32,
}

/// A date together with a time of day, without a time zone.
#[derive(Clone, Copy, Debug, PartialEq, Eq, Structural)]
pub struct DateTimeParts {
    pub date: CalDate,
    pub time: ClockTime,
}

pub open spec fn is_leap_year(y: int) -> bool {
    (y % 4 == 0 && y % 100 != 0) || y % 400 == 0
}

pub open spec fn days_in_month(y: int, m: int) -> int {
    if m == 2 {
        if is_leap_year(y) { 29 } else { 28 }
    } else if m == 4 || m == 6 || m == 9 || m == 11 {
        30
    } else {
        31
    }
}

impl CalDate {
    /// The date exists in the calendar and lies in chrono's range.
    pub open spec fn is_valid(self) -> bool {
        &&& MIN_YEAR <= self.year <= MAX_YEAR
        &&& 1 <= self.month <= 12
        &&& 1 <= self.day <= days_in_month(self.year as int, self.month as int)
    }

    /// The day after this one (the year may leave chrono's range).
    pub open spec fn next_day(self) -> CalDate {
        if self.day < days_in_month(self.year as int, self.month as int) {
            CalDate { day: (self.day + 1) as u32, ..self }
        } else if self.month < 12 {
            CalDate { year: self.year, month: (self.month + 1) as u32, day: 1 }
        } else {
            CalDate { year: (self.year + 1) as i32, month: 1, day: 1 }
        }
    }
}

/// One second in nanoseconds.
pub const NANOS_PER_SECOND: u32 = 1_000_000_000u32;

impl ClockTime {
    /// The time exists: a leap second only follows second 59, as chrono allows.
    pub open spec fn is_valid(self) -> bool {
        &&& self.hour < 24 && self.minute < 60 && self.second < 60
        &&& self.nanosecond < 2 * NANOS_PER_SECOND
        &&& self.nanosecond >= NANOS_PER_SECOND ==> self.second == 59
    }

    /// The time falls on a whole second (a leap second counts as one).
    pub open spec fn is_whole_second(self) -> bool {
        self.nanosecond == 0 || self.nanosecond == NANOS_PER_SECOND
    }

    /// The second as `%S` writes it: 60 during a leap second.
    pub open spec fn shown_second(self) -> int {
        if self.nanosecond >= NANOS_PER_SECOND {
            self.second + 1
        } else {
            self.second as int
        }
    }

    /// The nanoseconds once a leap second is left: chrono moves the rest of a leap
    /// second into the following second when it adds whole hours.
    pub open spec fn nanos_past_leap(self) -> u32 {
        if self.nanosecond >= NANOS_PER_SECOND {
            (self.nanosecond - NANOS_PER_SECOND) as u32
        } else {
            self.nanosecond
        }
    }
}

impl DateTimeParts {
    pub open spec fn is_valid(self) -> bool {
        self.date.is_valid() && self.time.is_valid()
    }
}

pub open spec fn year_length(y: int) -> int {
    if is_leap_year(y) { 366 } else { 365 }
}

/// Days from 1 January of year 0 to 1 January of year `y` (negative before year 0).
pub open spec fn days_before_year(y: int) -> int
    decreases (if y < 0 { -y } else { y }),
{
    if y == 0 {
        0
    } else if y > 0 {
        days_before_year(y - 1) + year_length(y - 1)
    } else {
        days_before_year(y + 1) - year_length(y)
    }
}

/// Days from 1 January to the first of month `m` in year `y`.
pub open spec fn days_before_month(y: int, m: int) -> int
    decreases m,
{
    if m <= 1 {
        0
    } else {
        days_before_month(y, m - 1) + days_in_month(y, m - 1)
    }
}

/// The number of the day `d` counted from 1 January of year 0.
pub open spec fn day_number(d: CalDate) -> int {
    days_before_year(d.year as int) + days_before_month(d.year as int, d.month as int) + d.day - 1
}

/// The number of the second `dt` counted from the start of 1 January of year 0.
pub open spec fn second_number(dt: DateTimeParts) -> int {
    day_number(dt.date) * 86400 + dt.time.hour * 3600 + dt.time.minute * 60 + dt.time.second
}

/// Midnight at the start of `d`.
pub open spec fn spec_at_midnight(d: CalDate) -> DateTimeParts {
    DateTimeParts { date: d, time: ClockTime { hour: 0, minute: 0, second: 0, nanosecond: 0 } }
}

/// The instant one hour after `dt`, or `None` where it would leave chrono's range.
/// A leap second ends up in the same second of the next hour.
pub open spec fn one_hour_later(dt: DateTimeParts) -> Option<DateTimeParts> {
    let nanos = dt.time.nanos_past_leap();
    if dt.time.hour < 23 {
        Some(
            DateTimeParts {
                date: dt.date,
                time: ClockTime { hour: (dt.time.hour + 1) as u32, nanosecond: nanos, ..dt.time },
            },
        )
    } else if dt.date.next_day().year > MAX_YEAR {
        None
    } else {
        Some(
            DateTimeParts {
                date: dt.date.next_day(),
                time: ClockTime { hour: 0, nanosecond: nanos, ..dt.time },
            },
        )
    }
}

/// The date and time at midnight of `d`, as `NaiveDate::and_hms(0, 0, 0)` gives it.
pub fn at_midnight(d: CalDate) -> (r: DateTimeParts)
    ensures
        r == spec_at_midnight(d),
{
    DateTimeParts { date: d, time: ClockTime { hour: 0, minute: 0, second: 0, nanosecond: 0 } }
}

// ---------------------------------------------------------------------------
// Text forms
// ---------------------------------------------------------------------------

pub open spec fn digit_char(d: int) -> char {
    ((48 + d) as u8) as char
}

/// The decimal digits of `n`, without leading zeros ("0" for zero).
pub open spec fn decimal(n: nat) -> Seq<char>
    decreases n,
{
    if n < 10 {
        seq![digit_char(n as int)]
    } else {
        decimal(n / 10).push(digit_char((n % 10) as int))
    }
}

/// `s` preceded by zeros up to `width` characters.
pub open spec fn zero_padded(s: Seq<char>, width: nat) -> Seq<char> {
    if s.len() >= width {
        s
    } else {
        Seq::new((width - s.len()) as nat, |i: int| '0') + s
    }
}

/// Two decimal digits, as chrono writes `%m`, `%d`, `%H`, `%M` and `%S`.
pub open spec fn two_digits(n: int) -> Seq<char> {
    seq![digit_char((n / 10) % 10), digit_char(n % 10)]
}

/// `%Y`: four digits for years 0 to 9999, otherwise a sign and at least four digits.
pub open spec fn year_text(y: int) -> Seq<char> {
    if 0 <= y <= 9999 {
        zero_padded(decimal(y as nat), 4)
    } else if y < 0 {
        seq!['-'] + zero_padded(decimal((-y) as nat), 4)
    } else {
        seq!['+'] + zero_padded(decimal(y as nat), 4)
    }
}

/// `%Y%m%d` of a date.
pub open spec fn compact_date_text(d: CalDate) -> Seq<char> {
    year_text(d.year as int) + two_digits(d.month as int) + two_digits(d.day as int)
}

/// `%Y%m%dT%H%M%S` of a date and time (a leap second as 60, nanoseconds left out).
pub open spec fn compact_date_time_text(dt: DateTimeParts) -> Seq<char> {
    compact_date_text(dt.date) + seq!['T'] + two_digits(dt.time.hour as int) + two_digits(
        dt.time.minute as int,
    ) + two_digits(dt.time.shown_second())
}

pub open spec fn month_name(m: int) -> Seq<char> {
    if m == 1 {
        seq!['J', 'a', 'n', 'u', 'a', 'r', 'y']
    } else if m == 2 {
        seq!['F', 'e', 'b', 'r', 'u', 'a', 'r', 'y']
    } else if m == 3 {
        seq!['M', 'a', 'r', 'c', 'h']
    } else if m == 4 {
        seq!['A', 'p', 'r', 'i', 'l']
    } else if m == 5 {
        seq!['M', 'a', 'y']
    } else if m == 6 {
        seq!['J', 'u', 'n', 'e']
    } else if m == 7 {
        seq!['J', 'u', 'l', 'y']
    } else if m == 8 {
        seq!['A', 'u', 'g', 'u', 's', 't']
    } else if m == 9 {
        seq!['S', 'e', 'p', 't', 'e', 'm', 'b', 'e', 'r']
    } else if m == 10 {
        seq!['O', 'c', 't', 'o', 'b', 'e', 'r']
    } else if m == 11 {
        seq!['N', 'o', 'v', 'e', 'm', 'b', 'e', 'r']
    } else {
        seq!['D', 'e', 'c', 'e', 'm', 'b', 'e', 'r']
    }
}

/// `%I:%M%P`: the hour on a twelve-hour clock, the minute, and "am" or "pm".
pub open spec fn twelve_hour_text(t: ClockTime) -> Seq<char> {
    let h12 = if t.hour % 12 == 0 { 12 } else { t.hour % 12 };
    let suffix = if t.hour < 12 { seq!['a', 'm'] } else { seq!['p', 'm'] };
    two_digits(h12 as int) + seq![':'] + two_digits(t.minute as int) + suffix
}

/// `%B %d %Y`: the month's full name, the day and the year.
pub open spec fn long_date_text(d: CalDate) -> Seq<char> {
    month_name(d.month as int) + seq![' '] + two_digits(d.day as int) + seq![' '] + year_text(
        d.year as int,
    )
}

/// The layout of a date and time in a property value.
pub open spec fn date_time_layout() -> Seq<char> {
    "%Y%m%dT%H%M%S"@
}

/// The layout of a date in a property value.
pub open spec fn date_layout() -> Seq<char> {
    "%Y%m%d"@
}

/// The two layouts in which an event's times are described.
pub open spec fn clock_layout() -> Seq<char> {
    "%I:%M%P"@
}

pub open spec fn long_date_layout() -> Seq<char> {
    "%B %d %Y"@
}

/// The year has four digits, so that `%Y` writes it without a sign and reads it back.
pub open spec fn four_digit_year(d: CalDate) -> bool {
    0 <= d.year <= 9999
}

/// `s` begins with an ASCII letter.
pub open spec fn starts_with_letter(s: Seq<char>) -> bool {
    s.len() > 0 && {
        let c = s[0] as u32;
        (65 <= c <= 90) || (97 <= c <= 122)
    }
}

// ---------------------------------------------------------------------------
// chrono
// ---------------------------------------------------------------------------

/// What `NaiveDateTime::parse_from_str(text, fmt)` returns, `None` for an error; its
/// nanoseconds kept as chrono keeps them (a leap second as second 59 and one billion).
pub uninterp spec fn chrono_parse_date_time(text: Seq<char>, fmt: Seq<char>) -> Option<DateTimeParts>;

/// What `NaiveDate::parse_from_str(text, fmt)` returns, `None` for an error.
pub uninterp spec fn chrono_parse_date(text: Seq<char>, fmt: Seq<char>) -> Option<CalDate>;

/// What `NaiveDateTime::format(fmt).to_string()` gives for `dt`.
pub uninterp spec fn chrono_format(dt: DateTimeParts, fmt: Seq<char>) -> Seq<char>;

/// Today's date on the local clock, from `chrono::Local::today()`.
/// Only its validity is stated: the result depends on the clock and the time zone.
#[verifier::external_body]
pub(crate) fn local_today() -> (r: CalDate)
    ensures
        r.is_valid(),
{
    #[allow(deprecated)]
    let d = Local::today().naive_local();
    CalDate { year: d.year(), month: d.month(), day: d.day() }
}

/// `DateTime<Utc>::checked_add_signed(TimeDelta::hours(1))`: the instant one hour
/// later, with the date rolling over at midnight; `None` past chrono's last date.
#[verifier::external_body]
pub(crate) fn utc_one_hour_later(dt: DateTimeParts) -> (r: Option<DateTimeParts>)
    requires
        dt.is_valid(),
    ensures
        r == one_hour_later(dt),
{
    let d = NaiveDate::from_ymd_opt(dt.date.year, dt.date.month, dt.date.day).unwrap();
    let n = d.and_hms_nano_opt(dt.time.hour, dt.time.minute, dt.time.second, dt.time.nanosecond).unwrap();
    match DateTime::<Utc>::from_naive_utc_and_offset(n, Utc).checked_add_signed(TimeDelta::hours(1)) {
        Some(t) => Some(DateTimeParts {
            date: CalDate { year: t.year(), month: t.month(), day: t.day() },
            time: ClockTime {
                hour: t.hour(),
                minute: t.minute(),
                second: t.second(),
                nanosecond: t.nanosecond(),
            },
        }),
        None => None,
    }
}

/// `NaiveDateTime::parse_from_str(text, fmt)`, with the error dropped.
/// Its result is named: chrono's parser is pages long. Stated besides: a parsed value
/// is valid; with the layout `%Y%m%dT%H%M%S`, the text that `format` writes for a
/// date and time of a four-digit year on a whole second reads back as it (`%Y` reads
/// four digits where no sign leads, the other fields two, and second 60 is read as a
/// leap second), and a text that begins with a letter is refused (`%Y` takes a sign
/// or a digit). Other texts and layouts are left unsaid.
#[verifier::external_body]
pub(crate) fn parse_date_time_text(text: &str, fmt: &str) -> (r: Option<DateTimeParts>)
    ensures
        r == chrono_parse_date_time(text@, fmt@),
        r matches Some(dt) ==> dt.is_valid(),
        forall|dt: DateTimeParts|
            #![trigger compact_date_time_text(dt)]
            fmt@ == date_time_layout() && dt.is_valid() && dt.time.is_whole_second()
                && four_digit_year(dt.date) && text@ == compact_date_time_text(dt) ==> r == Some(dt),
        fmt@ == date_time_layout() && starts_with_letter(text@) ==> r is None,
{
    match NaiveDateTime::parse_from_str(text, fmt) {
        Ok(t) => Some(DateTimeParts {
            date: CalDate { year: t.year(), month: t.month(), day: t.day() },
            time: ClockTime {
                hour: t.hour(),
                minute: t.minute(),
                second: t.second(),
                nanosecond: t.nanosecond(),
            },
        }),
        Err(_) => None,
    }
}

/// `NaiveDate::parse_from_str(text, fmt)`, with the error dropped.
/// Its result is named. Stated besides: a parsed date is valid; with the layout
/// `%Y%m%d` the text that `format` writes for a date of a four-digit year reads back
/// as it, and a text that begins with a letter is refused. Other texts and layouts
/// are left unsaid.
#[verifier::external_body]
pub(crate) fn parse_date_text(text: &str, fmt: &str) -> (r: Option<CalDate>)
    ensures
        r == chrono_parse_date(text@, fmt@),
        r matches Some(d) ==> d.is_valid(),
        forall|d: CalDate|
            #![trigger compact_date_text(d)]
            fmt@ == date_layout() && d.is_valid() && four_digit_year(d) && text@
                == compact_date_text(d) ==> r == Some(d),
        fmt@ == date_layout() && starts_with_letter(text@) ==> r is None,
{
    match NaiveDate::parse_from_str(text, fmt) {
        Ok(d) => Some(CalDate { year: d.year(), month: d.month(), day: d.day() }),
        Err(_) => None,
    }
}

/// `NaiveDateTime::format(fmt).to_string()` for `dt`, with `fmt` one of the two
/// layouts that describe an event (`to_string` panics on a layout that chrono
/// refuses). The result is named, and for each of the two layouts stated as well.
#[verifier::external_body]
pub(crate) fn format_date_time(dt: DateTimeParts, fmt: &str) -> (r: String)
    requires
        dt.is_valid(),
        fmt@ == clock_layout() || fmt@ == long_date_layout(),
    ensures
        r@ == chrono_format(dt, fmt@),
        fmt@ == clock_layout() ==> r@ == twelve_hour_text(dt.time),
        fmt@ == long_date_layout() ==> r@ == long_date_text(dt.date),
{
    let d = NaiveDate::from_ymd_opt(dt.date.year, dt.date.month, dt.date.day).unwrap();
    let n = d.and_hms_nano_opt(dt.time.hour, dt.time.minute, dt.time.second, dt.time.nanosecond).unwrap();
    n.format(fmt).to_string()
}

} // verus!
