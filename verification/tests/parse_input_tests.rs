//! The descriptions of the original program's own checks, with what its time and
//! date parsers read in each written out as `ParseProbes`.
use chrono::Datelike;
use eventline::datetime::{CalDate, ClockTime, DateTimeParts};
use eventline::event::parse_input;
use eventline::property::parse_property_to_ndt;
use eventline::timing::ParseProbes;
use icalendar::{Component, Event};

fn clock(h: u32, m: u32, s: u32) -> ClockTime {
    ClockTime { hour: h, minute: m, second: s, nanosecond: 0 }
}

fn date(y: i32, m: u32, d: u32) -> CalDate {
    CalDate { year: y, month: m, day: d }
}

fn time_today(h: u32, m: u32, s: u32) -> DateTimeParts {
    #[allow(deprecated)]
    let today = chrono::Local::today().naive_local();
    DateTimeParts { date: date(today.year(), today.month(), today.day()), time: clock(h, m, s) }
}

fn time_and_date(h: u32, min: u32, s: u32, mon: u32, d: u32, y: i32) -> DateTimeParts {
    DateTimeParts { date: date(y, mon, d), time: clock(h, min, s) }
}

fn ndt_from_ymd(y: i32, m: u32, d: u32) -> DateTimeParts {
    time_and_date(0, 0, 0, m, d, y)
}

fn no_probes() -> ParseProbes {
    ParseProbes {
        start_time: None,
        end_time: None,
        start_date: None,
        end_date: None,
        text_time: None,
        text_date: None,
    }
}

/// The whole text reads as a time and perhaps a date.
fn text(time: Option<ClockTime>, day: Option<CalDate>) -> ParseProbes {
    let mut p = no_probes();
    p.text_time = time;
    p.text_date = day;
    p
}

/// The two sides of the range read as times, the whole text perhaps as a date.
fn time_range(start: ClockTime, end: ClockTime, day: Option<CalDate>) -> ParseProbes {
    let mut p = no_probes();
    p.start_time = Some(start);
    p.end_time = Some(end);
    p.text_date = day;
    p
}

fn property_string(e: &Event, key: &str) -> String {
    let mut out = String::new();
    e.properties().get(key).unwrap().fmt_write(&mut out).unwrap();
    out
}

fn assert_parse_input_all_day(input: &str, probes: ParseProbes, expected_start: DateTimeParts) {
    let e = parse_input(input, &probes).unwrap();
    assert_eq!(
        parse_property_to_ndt(&property_string(&e, "DTSTART"), "DTSTART").unwrap(),
        expected_start
    );
}

fn assert_parse_input(
    input: &str,
    probes: ParseProbes,
    expected_start: DateTimeParts,
    expected_end: DateTimeParts,
) {
    let e = parse_input(input, &probes).unwrap();
    assert_eq!(
        parse_property_to_ndt(&property_string(&e, "DTSTART"), "DTSTART").unwrap(),
        expected_start
    );
    assert_eq!(
        parse_property_to_ndt(&property_string(&e, "DTEND"), "DTEND").unwrap(),
        expected_end
    );
}

#[test]
fn start_tests() {
    assert_parse_input(
        "Lunch at 1pm",
        text(Some(clock(13, 0, 0)), None),
        time_today(13, 0, 0),
        time_today(14, 0, 0),
    );
    assert_parse_input(
        "Lunch at 12:30pm",
        text(Some(clock(12, 30, 0)), None),
        time_today(12, 30, 0),
        time_today(13, 30, 0),
    );
    assert_parse_input(
        "Dinner at 7",
        text(Some(clock(19, 0, 0)), None),
        time_today(19, 0, 0),
        time_today(20, 0, 0),
    );
    assert_parse_input(
        "Lunch at 12pm",
        text(Some(clock(12, 0, 0)), None),
        time_today(12, 0, 0),
        time_today(13, 0, 0),
    );
    assert_parse_input(
        "Dinner at 7pm",
        text(Some(clock(19, 0, 0)), None),
        time_today(19, 0, 0),
        time_today(20, 0, 0),
    );
    assert_parse_input(
        "Flight on saturday at noon",
        text(Some(clock(12, 0, 0)), Some(date(2019, 6, 15))),
        time_and_date(12, 0, 0, 6, 15, 2019),
        time_and_date(13, 0, 0, 6, 15, 2019),
    );
}

#[test]
fn starts_and_ends_tests() {
    assert_parse_input(
        "Lunch 1-2",
        time_range(clock(13, 0, 0), clock(14, 0, 0), None),
        time_today(13, 0, 0),
        time_today(14, 0, 0),
    );
    assert_parse_input(
        "Dinner 7-9pm",
        time_range(clock(19, 0, 0), clock(21, 0, 0), None),
        time_today(19, 0, 0),
        time_today(21, 0, 0),
    );
    assert_parse_input(
        "Lunch 11-1pm",
        time_range(clock(11, 0, 0), clock(13, 0, 0), None),
        time_today(11, 0, 0),
        time_today(13, 0, 0),
    );
}

#[test]
fn starts_and_ends_with_date_tests() {
    assert_parse_input(
        "Lunch 1-2pm 6/10",
        time_range(clock(13, 0, 0), clock(14, 0, 0), Some(date(2019, 6, 10))),
        time_and_date(13, 0, 0, 6, 10, 2019),
        time_and_date(14, 0, 0, 6, 10, 2019),
    )
}

#[test]
fn all_day_tests() {
    assert_parse_input_all_day(
        "America's Birthday 7/4",
        text(None, Some(date(2019, 7, 4))),
        ndt_from_ymd(2019, 7, 4),
    );
    assert_parse_input_all_day(
        "America's Birthday July 4th",
        text(None, Some(date(2019, 7, 4))),
        ndt_from_ymd(2019, 7, 4),
    );
}

#[test]
fn start_with_date_tests() {
    assert_parse_input(
        "Lunch at 1pm 6/15",
        text(Some(clock(13, 0, 0)), Some(date(2019, 6, 15))),
        time_and_date(13, 0, 0, 6, 15, 2019),
        time_and_date(14, 0, 0, 6, 15, 2019),
    );
    assert_parse_input(
        "Lunch at 1pm next Friday",
        text(Some(clock(13, 0, 0)), Some(date(2019, 6, 21))),
        time_and_date(13, 0, 0, 6, 21, 2019),
        time_and_date(14, 0, 0, 6, 21, 2019),
    );
}

#[test]
fn all_day_starts_and_ends_tests() {
    let mut probes = no_probes();
    probes.start_date = Some(date(2019, 9, 1));
    probes.end_date = Some(date(2019, 9, 8));
    assert_parse_input(
        "Welcome Week 9/1-9/8",
        probes,
        ndt_from_ymd(2019, 9, 1),
        ndt_from_ymd(2019, 9, 8),
    )
}
