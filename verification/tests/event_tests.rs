use eventline::datetime::{CalDate, ClockTime, DateTimeParts};
use eventline::describe::{event_start_and_end, pretty_lines, pretty_print_lines};
use eventline::event::{parse_input, parse_input_at};
use eventline::property::parse_property_to_ndt;
use eventline::timing::ParseProbes;
use icalendar::{Component, Event};

fn t(h: u32, m: u32) -> ClockTime {
    ClockTime { hour: h, minute: m, second: 0, nanosecond: 0 }
}

fn d(y: i32, m: u32, day: u32) -> CalDate {
    CalDate { year: y, month: m, day }
}

fn at(date: CalDate, time: ClockTime) -> DateTimeParts {
    DateTimeParts { date, time }
}

fn no_probes() -> ParseProbes {
    ParseProbes {
        start_time: None,
        end_time: None,
        start_date: None,
        end_date: None,
        text_time: None,
        text_date: None,
    }
}

fn line(e: &Event, key: &str) -> String {
    let mut out = String::new();
    e.properties().get(key).unwrap().fmt_write(&mut out).unwrap();
    out
}

fn start_and_end(e: &Event) -> (Option<DateTimeParts>, Option<DateTimeParts>) {
    (
        parse_property_to_ndt(&line(e, "DTSTART"), "DTSTART"),
        parse_property_to_ndt(&line(e, "DTEND"), "DTEND"),
    )
}

#[test]
fn lone_start_time_lasts_one_hour() {
    let mut p = no_probes();
    p.text_time = Some(t(13, 0));
    let today = d(2019, 6, 10);
    let e = parse_input_at("Lunch at 1pm", &p, today);
    assert_eq!(line(&e, "DTSTART"), "DTSTART:20190610T130000\r\n");
    assert_eq!(
        start_and_end(&e),
        (Some(at(today, t(13, 0))), Some(at(today, t(14, 0))))
    );
    assert_eq!(line(&e, "SUMMARY"), "SUMMARY:Lunch\r\n");
}

#[test]
fn one_hour_later_rolls_over_the_year() {
    let mut p = no_probes();
    p.text_time = Some(t(23, 30));
    p.text_date = Some(d(2019, 12, 31));
    let e = parse_input_at("Party at 11:30pm 12/31", &p, d(2019, 6, 10));
    assert_eq!(
        start_and_end(&e),
        (Some(at(d(2019, 12, 31), t(23, 30))), Some(at(d(2020, 1, 1), t(0, 30))))
    );
}

#[test]
fn one_hour_later_on_a_leap_day() {
    let mut p = no_probes();
    p.text_time = Some(t(23, 0));
    p.text_date = Some(d(2020, 2, 28));
    let e = parse_input_at("Late call", &p, d(2019, 6, 10));
    assert_eq!(start_and_end(&e).1, Some(at(d(2020, 2, 29), t(0, 0))));
}

#[test]
fn time_range_on_today() {
    let mut p = no_probes();
    p.start_time = Some(t(19, 0));
    p.end_time = Some(t(21, 0));
    let today = d(2019, 6, 10);
    let e = parse_input_at("Dinner 7-9pm", &p, today);
    assert_eq!(
        start_and_end(&e),
        (Some(at(today, t(19, 0))), Some(at(today, t(21, 0))))
    );
}

#[test]
fn time_range_with_date() {
    let mut p = no_probes();
    p.start_time = Some(t(13, 0));
    p.end_time = Some(t(14, 0));
    p.text_date = Some(d(2019, 6, 10));
    let e = parse_input_at("Lunch 1-2pm 6/10", &p, d(2019, 1, 1));
    assert_eq!(
        start_and_end(&e),
        (Some(at(d(2019, 6, 10), t(13, 0))), Some(at(d(2019, 6, 10), t(14, 0))))
    );
}

#[test]
fn whole_day_event() {
    let mut p = no_probes();
    p.text_date = Some(d(2019, 7, 4));
    let e = parse_input_at("America's Birthday 7/4", &p, d(2019, 1, 1));
    assert_eq!(line(&e, "DTSTART"), "DTSTART;VALUE=DATE:20190704\r\n");
    assert_eq!(line(&e, "DTEND"), "DTEND;VALUE=DATE:20190704\r\n");
    assert_eq!(start_and_end(&e).0, Some(at(d(2019, 7, 4), t(0, 0))));
    assert_eq!(line(&e, "SUMMARY"), "SUMMARY:America's Birthday\r\n");
}

#[test]
fn run_of_whole_days() {
    let mut p = no_probes();
    p.start_date = Some(d(2019, 9, 1));
    p.end_date = Some(d(2019, 9, 8));
    let e = parse_input_at("Welcome Week 9/1-9/8", &p, d(2019, 1, 1));
    assert_eq!(
        start_and_end(&e),
        (Some(at(d(2019, 9, 1), t(0, 0))), Some(at(d(2019, 9, 8), t(0, 0))))
    );
    assert_eq!(line(&e, "SUMMARY"), "SUMMARY:Welcome Week\r\n");
}

#[test]
fn no_time_or_date_takes_all_of_today() {
    let today = d(2019, 6, 10);
    let e = parse_input_at("Read a book", &no_probes(), today);
    assert_eq!(line(&e, "DTSTART"), "DTSTART;VALUE=DATE:20190610\r\n");
    assert_eq!(line(&e, "DTEND"), "DTEND;VALUE=DATE:20190610\r\n");
}

#[test]
fn years_past_9999_carry_a_sign() {
    let mut p = no_probes();
    p.text_date = Some(d(10000, 1, 2));
    let e = parse_input_at("Far away", &p, d(2019, 1, 1));
    assert_eq!(line(&e, "DTSTART"), "DTSTART;VALUE=DATE:+100000102\r\n");
}

#[test]
fn parse_input_uses_the_local_date() {
    let mut p = no_probes();
    p.text_time = Some(t(12, 0));
    let e = parse_input("Lunch at 12pm", &p).unwrap();
    #[allow(deprecated)]
    let today = chrono::Local::today().naive_local();
    let expected = format!("DTSTART:{}T120000\r\n", today.format("%Y%m%d"));
    assert_eq!(line(&e, "DTSTART"), expected);
}

#[test]
fn describe_a_timed_event() {
    let mut p = no_probes();
    p.start_time = Some(t(13, 0));
    p.end_time = Some(t(14, 30));
    let e = parse_input_at("Lunch 1-2:30pm", &p, d(2019, 6, 10));
    assert_eq!(
        pretty_print_lines(&e),
        Some(vec![
            "Event: \"Lunch\"".to_owned(),
            "01:00pm June 10 2019 - 02:30pm June 10 2019".to_owned(),
        ])
    );
}

#[test]
fn describe_a_whole_day_event() {
    let mut p = no_probes();
    p.text_date = Some(d(2019, 7, 4));
    let e = parse_input_at("Parade 7/4", &p, d(2019, 1, 1));
    assert_eq!(
        pretty_print_lines(&e),
        Some(vec![
            "Event: \"Parade\"".to_owned(),
            "12:00am July 04 2019 - 12:00am July 04 2019".to_owned(),
        ])
    );
}

#[test]
fn describe_lines_quote_and_escape() {
    assert_eq!(
        pretty_lines(Some("SUMMARY:Say \"hi\"\r\n"), Some("LOCATION:Room 1"), None, None),
        vec!["Event: \"Say \\\"hi\\\"\"".to_owned(), "Location: \"Room 1\"".to_owned()]
    );
}

#[test]
fn describe_without_an_end_has_no_time_line() {
    assert_eq!(
        pretty_lines(None, None, Some("DTSTART:20190610T090000"), None),
        Vec::<String>::new()
    );
    assert_eq!(
        pretty_lines(None, None, Some("DTSTART:20190610T090000"), Some("DTEND;VALUE=DATE:xx")),
        Vec::<String>::new()
    );
}

#[test]
fn describe_refuses_an_unreadable_start() {
    let mut e = Event::new();
    e.add_property("DTSTART", "not a date");
    let e = e.done();
    assert_eq!(pretty_print_lines(&e), None);
}

#[test]
fn event_has_exactly_start_end_and_summary() {
    let mut p = no_probes();
    p.text_time = Some(t(9, 15));
    let e = parse_input_at("Standup at 9:15", &p, d(2019, 6, 10));
    let keys: Vec<&String> = e.properties().keys().collect();
    assert_eq!(keys, vec!["DTEND", "DTSTART", "SUMMARY"]);
}

#[test]
fn summary_read_back_from_the_event() {
    let e = parse_input_at("Dinner with friends tomorrow", &no_probes(), d(2019, 6, 10));
    assert_eq!(
        eventline::property::parse_property(&line(&e, "SUMMARY"), "SUMMARY"),
        "Dinner with friends"
    );
}

#[test]
fn event_start_and_end_of_a_timed_event() {
    let mut p = no_probes();
    p.text_time = Some(t(13, 0));
    let today = d(2019, 6, 10);
    let e = parse_input_at("Lunch at 1pm", &p, today);
    assert_eq!(
        event_start_and_end(&e),
        (Some(at(today, t(13, 0))), Some(at(today, t(14, 0))))
    );
}

#[test]
fn event_start_and_end_of_whole_days() {
    let mut p = no_probes();
    p.start_date = Some(d(2019, 9, 1));
    p.end_date = Some(d(2019, 9, 8));
    let e = parse_input_at("Welcome Week 9/1-9/8", &p, d(2019, 1, 1));
    assert_eq!(
        event_start_and_end(&e),
        (Some(at(d(2019, 9, 1), t(0, 0))), Some(at(d(2019, 9, 8), t(0, 0))))
    );
}

#[test]
fn event_start_and_end_of_an_empty_event() {
    assert_eq!(event_start_and_end(&Event::new()), (None, None));
}

#[test]
fn event_start_and_end_of_an_early_year() {
    let mut p = no_probes();
    p.text_time = Some(t(9, 15));
    p.text_date = Some(d(5, 3, 4));
    let e = parse_input_at("Old times", &p, d(2019, 1, 1));
    assert_eq!(line(&e, "DTSTART"), "DTSTART:00050304T091500\r\n");
    assert_eq!(
        event_start_and_end(&e),
        (Some(at(d(5, 3, 4), t(9, 15))), Some(at(d(5, 3, 4), t(10, 15))))
    );
}

#[test]
fn a_leap_second_start_ends_in_the_same_second_an_hour_later() {
    let mut p = no_probes();
    let mut leap = t(10, 59);
    leap.second = 59;
    leap.nanosecond = 1_000_000_000;
    p.text_time = Some(leap);
    let today = d(2019, 6, 30);
    let e = parse_input_at("Watch the clock", &p, today);
    assert_eq!(line(&e, "DTSTART"), "DTSTART:20190630T105960\r\n");
    assert_eq!(line(&e, "DTEND"), "DTEND:20190630T115959\r\n");
    let mut end = t(11, 59);
    end.second = 59;
    assert_eq!(event_start_and_end(&e), (Some(at(today, leap)), Some(at(today, end))));
}
