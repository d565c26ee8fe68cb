//! Building the iCalendar event that a description stands for, and describing
//! such an event in words.
use crate::datetime::{
    compact_date_text, compact_date_time_text, local_today, one_hour_later, utc_one_hour_later,
    CalDate, ClockTime, DateTimeParts, MAX_YEAR,
};
use crate::summary::{get_summary, summary_of, summary_patterns_compile, summary_text};
use crate::timing::{
    checked_start_and_end, get_start_and_end, range_captures_of, range_pattern, start_and_end,
    EventStartAndEndExpr, ParseProbes,
};
use crate::matching::regex_compiles;
use chrono::{Date, DateTime, NaiveDate, Utc};
use icalendar::{Component, Event};
use vstd::prelude::*;
use vstd::utf8::{encode_utf8, is_char_boundary};

verus! {

#[verifier::external_type_specification]
#[verifier::external_body]
pub struct ExEvent(icalendar::Event);

/// One property of an event as it is stored: its value and its parameters.
pub struct PropEntry {
    pub value: Seq<char>,
    pub params: Map<Seq<char>, Seq<char>>,
}

/// The properties of an iCalendar event, by name.
pub uninterp spec fn event_properties(e: Event) -> Map<Seq<char>, PropEntry>;

/// No properties at all.
pub open spec fn no_properties() -> Map<Seq<char>, PropEntry> {
    Map::empty()
}

pub open spec fn dtstart_key() -> Seq<char> {
    "DTSTART"@
}

pub open spec fn dtend_key() -> Seq<char> {
    "DTEND"@
}

pub open spec fn summary_key() -> Seq<char> {
    "SUMMARY"@
}

/// `s` with each line feed written as a backslash and an `n`, as `Property::new` stores it.
pub open spec fn escape_newlines(s: Seq<char>) -> Seq<char>
    decreases s.len(),
{
    if s.len() == 0 {
        s
    } else if s.last() == '\n' {
        escape_newlines(s.drop_last()) + seq!['\\', 'n']
    } else {
        escape_newlines(s.drop_last()).push(s.last())
    }
}

/// A property with value `value` and no parameters.
pub open spec fn plain_entry(value: Seq<char>) -> PropEntry {
    PropEntry { value: escape_newlines(value), params: Map::empty() }
}

/// A date-valued property: the date as `YYYYMMDD` and the parameter `VALUE=DATE`.
pub open spec fn date_entry(d: CalDate) -> PropEntry {
    PropEntry { value: compact_date_text(d), params: Map::empty().insert("VALUE"@, "DATE"@) }
}

/// A date-and-time-valued property: `YYYYMMDDTHHMMSS`.
pub open spec fn date_time_entry(dt: DateTimeParts) -> PropEntry {
    plain_entry(compact_date_time_text(dt))
}

/// The last byte offset at most `n` that starts a character of `b` (or ends `b`).
pub open spec fn boundary_at_most(b: Seq<u8>, n: int) -> int
    decreases n,
{
    if n <= 0 {
        0
    } else if is_char_boundary(b, n) {
        n
    } else {
        boundary_at_most(b, n - 1)
    }
}

/// A content line folded as RFC 5545 asks: after at most 75 bytes, cut at the start
/// of a character, a line break and a space.
pub open spec fn fold_bytes(b: Seq<u8>) -> Seq<u8>
    decreases b.len(),
{
    if b.len() <= 75 {
        b
    } else {
        let k = boundary_at_most(b, 75);
        if 0 < k && k <= b.len() {
            b.subrange(0, k) + seq![13u8, 10u8, 32u8] + fold_bytes(b.subrange(k, b.len() as int))
        } else {
            b
        }
    }
}

/// The content line of a property with at most one parameter: `NAME:value` or
/// `NAME;PARAM=VAL:value`.
pub open spec fn content_line(key: Seq<char>, entry: PropEntry) -> Seq<char> {
    if entry.params.dom().len() == 0 {
        key + seq![':'] + entry.value
    } else {
        let p = entry.params.dom().choose();
        key + seq![';'] + p + seq!['='] + entry.params[p] + seq![':'] + entry.value
    }
}

// ---------------------------------------------------------------------------
// icalendar
// ---------------------------------------------------------------------------

/// `Event::new()`: an event without properties.
#[verifier::external_body]
pub(crate) fn new_event() -> (r: Event)
    ensures
        event_properties(r) == no_properties(),
{
    Event::new()
}

/// `Component::starts` with the UTC instant `dt`: sets `DTSTART` to `dt` formatted
/// `%Y%m%dT%H%M%S`, without parameters.
#[verifier::external_body]
pub(crate) fn set_starts(e: &mut Event, dt: DateTimeParts)
    requires
        dt.is_valid(),
    ensures
        event_properties(*final(e)) == event_properties(*old(e)).insert(
            dtstart_key(),
            date_time_entry(dt),
        ),
{
    let d = NaiveDate::from_ymd_opt(dt.date.year, dt.date.month, dt.date.day).unwrap();
    let n = d.and_hms_nano_opt(dt.time.hour, dt.time.minute, dt.time.second, dt.time.nanosecond).unwrap();
    e.starts(DateTime::<Utc>::from_naive_utc_and_offset(n, Utc));
}

/// `Component::ends` with the UTC instant `dt`: sets `DTEND` to `dt` formatted
/// `%Y%m%dT%H%M%S`, without parameters.
#[verifier::external_body]
pub(crate) fn set_ends(e: &mut Event, dt: DateTimeParts)
    requires
        dt.is_valid(),
    ensures
        event_properties(*final(e)) == event_properties(*old(e)).insert(
            dtend_key(),
            date_time_entry(dt),
        ),
{
    let d = NaiveDate::from_ymd_opt(dt.date.year, dt.date.month, dt.date.day).unwrap();
    let n = d.and_hms_nano_opt(dt.time.hour, dt.time.minute, dt.time.second, dt.time.nanosecond).unwrap();
    e.ends(DateTime::<Utc>::from_naive_utc_and_offset(n, Utc));
}

/// `Component::all_day` with the date `d`: sets both `DTSTART` and `DTEND` to `d`
/// formatted `%Y%m%d`, with the parameter `VALUE=DATE`.
#[verifier::external_body]
pub(crate) fn set_all_day(e: &mut Event, d: CalDate)
    requires
        d.is_valid(),
    ensures
        event_properties(*final(e)) == event_properties(*old(e)).insert(
            dtstart_key(),
            date_entry(d),
        ).insert(dtend_key(), date_entry(d)),
{
    #[allow(deprecated)]
    let date = Date::<Utc>::from_utc(NaiveDate::from_ymd_opt(d.year, d.month, d.day).unwrap(), Utc);
    e.all_day(date);
}

/// `Component::start_date` with `d`: sets `DTSTART` to `d` formatted `%Y%m%d`, with
/// the parameter `VALUE=DATE`.
#[verifier::external_body]
pub(crate) fn set_start_date(e: &mut Event, d: CalDate)
    requires
        d.is_valid(),
    ensures
        event_properties(*final(e)) == event_properties(*old(e)).insert(
            dtstart_key(),
            date_entry(d),
        ),
{
    #[allow(deprecated)]
    let date = Date::<Utc>::from_utc(NaiveDate::from_ymd_opt(d.year, d.month, d.day).unwrap(), Utc);
    e.start_date(date);
}

/// `Component::end_date` with `d`: sets `DTEND` to `d` formatted `%Y%m%d`, with the
/// parameter `VALUE=DATE`.
#[verifier::external_body]
pub(crate) fn set_end_date(e: &mut Event, d: CalDate)
    requires
        d.is_valid(),
    ensures
        event_properties(*final(e)) == event_properties(*old(e)).insert(
            dtend_key(),
            date_entry(d),
        ),
{
    #[allow(deprecated)]
    let date = Date::<Utc>::from_utc(NaiveDate::from_ymd_opt(d.year, d.month, d.day).unwrap(), Utc);
    e.end_date(date);
}

/// `Component::summary`: sets `SUMMARY` to `text`, line feeds escaped, without parameters.
#[verifier::external_body]
pub(crate) fn set_summary(e: &mut Event, text: &str)
    ensures
        event_properties(*final(e)) == event_properties(*old(e)).insert(
            summary_key(),
            plain_entry(text@),
        ),
{
    e.summary(text);
}

/// `Event::done`: the event with all properties, which leaves `e` empty.
#[verifier::external_body]
pub(crate) fn finish(e: &mut Event) -> (r: Event)
    ensures
        event_properties(r) == event_properties(*old(e)),
        event_properties(*final(e)) == no_properties(),
{
    e.done()
}

/// The property `key` of `e` as `Property::fmt_write` renders it, `None` where `e`
/// has no such property. For a property with at most one parameter the text is its
/// content line, folded, and a line break. With more parameters their order follows
/// a hash map's and is not stated.
#[verifier::external_body]
pub(crate) fn property_line(e: &Event, key: &str) -> (r: Option<String>)
    ensures
        r is Some <==> event_properties(*e).contains_key(key@),
        r matches Some(text) ==> ({
            let entry = event_properties(*e)[key@];
            entry.params.dom().finite() && entry.params.dom().len() <= 1 ==> encode_utf8(text@)
                == fold_bytes(encode_utf8(content_line(key@, entry))) + seq![13u8, 10u8]
        }),
{
    match e.properties().get(key) {
        Some(p) => {
            let mut out = String::new();
            match p.fmt_write(&mut out) {
                Ok(()) => Some(out),
                Err(_) => None,
            }
        },
        None => None,
    }
}

// ---------------------------------------------------------------------------
// The event of a description
// ---------------------------------------------------------------------------

/// When an event takes place: from one instant to another, or over whole days.
pub enum Schedule {
    At(DateTimeParts, DateTimeParts),
    Days(CalDate, CalDate),
}

pub open spec fn date_at(d: CalDate, t: ClockTime) -> DateTimeParts {
    DateTimeParts { date: d, time: t }
}

/// A start with an end one hour later; `None` past chrono's last date.
pub open spec fn hour_from(start: DateTimeParts) -> Option<Schedule> {
    match one_hour_later(start) {
        Some(end) => Some(Schedule::At(start, end)),
        None => None,
    }
}

/// The schedule of an event with start and end `expr`, where the unnamed day is
/// `today`: a lone start time lasts an hour, a lone time or date range keeps its
/// ends, and an event without time or date takes all of today.
pub open spec fn schedule_of(expr: EventStartAndEndExpr, today: CalDate) -> Option<Schedule> {
    match expr {
        EventStartAndEndExpr::Unknown => Some(Schedule::Days(today, today)),
        EventStartAndEndExpr::Starts(t) => hour_from(date_at(today, t)),
        EventStartAndEndExpr::StartsWithDate(t, d) => hour_from(date_at(d, t)),
        EventStartAndEndExpr::StartsAndEnds(s, e) => Some(
            Schedule::At(date_at(today, s), date_at(today, e)),
        ),
        EventStartAndEndExpr::StartsAndEndsWithDate(s, e, d) => Some(
            Schedule::At(date_at(d, s), date_at(d, e)),
        ),
        EventStartAndEndExpr::AllDay(d) => Some(Schedule::Days(d, d)),
        EventStartAndEndExpr::AllDayStartsAndEnds(a, b) => Some(Schedule::Days(a, b)),
    }
}

/// The `DTSTART` and `DTEND` properties of a schedule.
pub open spec fn schedule_properties(s: Schedule) -> Map<Seq<char>, PropEntry> {
    match s {
        Schedule::At(a, b) => Map::empty().insert(dtstart_key(), date_time_entry(a)).insert(
            dtend_key(),
            date_time_entry(b),
        ),
        Schedule::Days(a, b) => Map::empty().insert(dtstart_key(), date_entry(a)).insert(
            dtend_key(),
            date_entry(b),
        ),
    }
}

/// The properties of the event described by `text`, where the parsers read `probes`
/// and the unnamed day is `today`; `None` where an end would fall past chrono's last date.
pub open spec fn described_event(text: Seq<char>, probes: ParseProbes, today: CalDate) -> Option<
    Map<Seq<char>, PropEntry>,
> {
    match schedule_of(start_and_end(range_captures_of(text), probes), today) {
        Some(s) => Some(schedule_properties(s).insert(summary_key(), plain_entry(summary_text(text)))),
        None => None,
    }
}

/// Both regular expressions of the library compile.
pub open spec fn patterns_compile() -> bool {
    regex_compiles(range_pattern()) && summary_patterns_compile()
}

/// Sets the start and end of the empty event `e` after `expr`.
fn fill_schedule(e: &mut Event, expr: EventStartAndEndExpr, today: CalDate)
    requires
        event_properties(*old(e)) == no_properties(),
        expr.is_valid(),
        today.is_valid(),
        schedule_of(expr, today) is Some,
    ensures
        event_properties(*final(e)) == schedule_properties(schedule_of(expr, today).unwrap()),
{
    match expr {
        EventStartAndEndExpr::Unknown => {
            set_all_day(e, today);
        },
        EventStartAndEndExpr::Starts(t) => {
            let start = DateTimeParts { date: today, time: t };
            set_starts(e, start);
            if let Some(end) = utc_one_hour_later(start) {
                set_ends(e, end);
            }
        },
        EventStartAndEndExpr::AllDay(d) => {
            set_all_day(e, d);
        },
        EventStartAndEndExpr::StartsWithDate(t, d) => {
            let start = DateTimeParts { date: d, time: t };
            set_starts(e, start);
            if let Some(end) = utc_one_hour_later(start) {
                set_ends(e, end);
            }
        },
        EventStartAndEndExpr::StartsAndEnds(s, en) => {
            set_starts(e, DateTimeParts { date: today, time: s });
            set_ends(e, DateTimeParts { date: today, time: en });
        },
        EventStartAndEndExpr::StartsAndEndsWithDate(s, en, d) => {
            set_starts(e, DateTimeParts { date: d, time: s });
            set_ends(e, DateTimeParts { date: d, time: en });
        },
        EventStartAndEndExpr::AllDayStartsAndEnds(a, b) => {
            set_start_date(e, a);
            set_end_date(e, b);
        },
    }
}

/// The event described by `text`, where the time and date parsers read `probes` and
/// the day that the text leaves unnamed is `today`. Its `DTSTART` and `DTEND` follow
/// [`schedule_of`], its `SUMMARY` is the text's summary.
pub fn parse_input_at(text: &str, probes: &ParseProbes, today: CalDate) -> (r: Event)
    requires
        patterns_compile(),
        probes.is_valid(),
        today.is_valid(),
        described_event(text@, *probes, today) is Some,
    ensures
        Some(event_properties(r)) == described_event(text@, *probes, today),
{
    let mut e = new_event();
    let expr = get_start_and_end(text, probes);
    fill_schedule(&mut e, expr, today);
    if let Some(summary) = get_summary(text) {
        set_summary(&mut e, summary.as_str());
    }
    finish(&mut e)
}

/// The event described by `text`, where the time and date parsers read `probes`,
/// on the local clock's day. `None` where a pattern does not compile or an end would
/// fall past chrono's last date.
pub fn parse_input(text: &str, probes: &ParseProbes) -> (r: Option<Event>)
    requires
        probes.is_valid(),
    ensures
        exists|today: CalDate|
            {
                &&& today.is_valid()
                &&& (r is Some <==> patterns_compile() && described_event(text@, *probes, today) is Some)
                &&& (r matches Some(e) ==> Some(event_properties(e)) == described_event(text@, *probes, today))
            },
{
    let today = local_today();
    let expr = match checked_start_and_end(text, probes) {
        Some(x) => x,
        None => return None,
    };
    if summary_of(text).is_none() {
        return None;
    }
    if !schedule_exists(expr, today) {
        return None;
    }
    Some(parse_input_at(text, probes, today))
}

/// Whether the schedule of `expr` exists with `today` as the unnamed day: a lone
/// start time has no end an hour later only in the last hour of chrono's last day.
fn schedule_exists(expr: EventStartAndEndExpr, today: CalDate) -> (r: bool)
    requires
        expr.is_valid(),
        today.is_valid(),
    ensures
        r == schedule_of(expr, today) is Some,
{
    let (t, d) = match expr {
        EventStartAndEndExpr::Starts(t) => (t, today),
        EventStartAndEndExpr::StartsWithDate(t, d) => (t, d),
        _ => return true,
    };
    !(t.hour >= 23 && d.year == MAX_YEAR && d.month == 12 && d.day == 31)
}

} // verus!
