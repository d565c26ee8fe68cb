use eventline::datetime::{CalDate, ClockTime};
use eventline::timing::{
    checked_start_and_end, decide_start_and_end, get_start_and_end, range_captures,
    EventStartAndEndExpr, ParseProbes,
};

fn t(h: u32, m: u32) -> ClockTime {
    ClockTime { hour: h, minute: m, second: 0, nanosecond: 0 }
}

fn d(y: i32, m: u32, day: u32) -> CalDate {
    CalDate { year: y, month: m, day }
}

fn no_probes() -> ParseProbes {
    ParseProbes {
        start_time: None,
        end_time: None,
        start_date: None,
        end_date: None,
        text_time: None,
        text_date: None,
    }
}

fn caps(a: &str, b: &str) -> Option<(Option<String>, Option<String>)> {
    Some((Some(a.to_owned()), Some(b.to_owned())))
}

#[test]
fn range_captures_finds_time_and_date_ranges() {
    assert_eq!(range_captures("Dinner 7-9pm"), Some(caps("7", "9pm")));
    assert_eq!(range_captures("Welcome Week 9/1-9/8"), Some(caps("9/1", "9/8")));
    assert_eq!(range_captures("Concert from 7 to 9"), Some(caps("7", "9")));
    assert_eq!(range_captures("Lunch at 1pm"), Some(None));
}

#[test]
fn time_range_with_and_without_date() {
    let mut p = no_probes();
    p.start_time = Some(t(19, 0));
    p.end_time = Some(t(21, 0));
    assert_eq!(
        decide_start_and_end(&caps("7", "9pm"), &p),
        EventStartAndEndExpr::StartsAndEnds(t(19, 0), t(21, 0))
    );
    p.text_date = Some(d(2019, 6, 10));
    assert_eq!(
        decide_start_and_end(&caps("1", "2pm"), &p),
        EventStartAndEndExpr::StartsAndEndsWithDate(t(19, 0), t(21, 0), d(2019, 6, 10))
    );
}

#[test]
fn date_range_when_the_pieces_are_no_times() {
    let mut p = no_probes();
    p.start_date = Some(d(2019, 9, 1));
    p.end_date = Some(d(2019, 9, 8));
    p.text_date = Some(d(2019, 9, 1));
    assert_eq!(
        decide_start_and_end(&caps("9/1", "9/8"), &p),
        EventStartAndEndExpr::AllDayStartsAndEnds(d(2019, 9, 1), d(2019, 9, 8))
    );
}

#[test]
fn half_a_range_falls_back_to_the_whole_text() {
    let mut p = no_probes();
    p.start_time = Some(t(13, 0));
    p.text_time = Some(t(13, 0));
    assert_eq!(
        decide_start_and_end(&caps("1pm", "Friday"), &p),
        EventStartAndEndExpr::Starts(t(13, 0))
    );
    p.text_date = Some(d(2019, 6, 21));
    assert_eq!(
        decide_start_and_end(&caps("1pm", "Friday"), &p),
        EventStartAndEndExpr::StartsWithDate(t(13, 0), d(2019, 6, 21))
    );
}

#[test]
fn whole_text_date_alone_or_nothing() {
    let mut p = no_probes();
    assert_eq!(decide_start_and_end(&None, &p), EventStartAndEndExpr::Unknown);
    p.text_date = Some(d(2019, 7, 4));
    assert_eq!(decide_start_and_end(&None, &p), EventStartAndEndExpr::AllDay(d(2019, 7, 4)));
    // Range probes are ignored where the text has no range.
    p.start_time = Some(t(1, 0));
    p.end_time = Some(t(2, 0));
    assert_eq!(decide_start_and_end(&None, &p), EventStartAndEndExpr::AllDay(d(2019, 7, 4)));
}

#[test]
fn get_start_and_end_searches_the_text_itself() {
    let mut p = no_probes();
    p.start_time = Some(t(11, 0));
    p.end_time = Some(t(13, 0));
    assert_eq!(
        get_start_and_end("Lunch 11-1pm", &p),
        EventStartAndEndExpr::StartsAndEnds(t(11, 0), t(13, 0))
    );
    // No range in the text: the range probes do not count.
    assert_eq!(get_start_and_end("Lunch", &p), EventStartAndEndExpr::Unknown);
    assert_eq!(
        checked_start_and_end("Lunch 11-1pm", &p),
        Some(EventStartAndEndExpr::StartsAndEnds(t(11, 0), t(13, 0)))
    );
}
