use eventline::datetime::{at_midnight, CalDate, ClockTime, DateTimeParts};
use eventline::property::{
    checked_parse_property, checked_parse_property_to_ndt, parse_property,
    parse_property_date_only, parse_property_to_ndt,
};

fn dt(y: i32, mo: u32, d: u32, h: u32, mi: u32, s: u32) -> DateTimeParts {
    DateTimeParts {
        date: CalDate { year: y, month: mo, day: d },
        time: ClockTime { hour: h, minute: mi, second: s, nanosecond: 0 },
    }
}

#[test]
fn parse_property_cuts_after_name_and_colon() {
    assert_eq!(parse_property("DTSTART:20190615T130000\r\n", "DTSTART"), "20190615T130000");
    assert_eq!(parse_property("  SUMMARY:Lunch  ", "SUMMARY"), "Lunch");
    assert_eq!(parse_property("SUMMARY:", "SUMMARY"), "");
}

#[test]
fn parse_property_date_only_cuts_after_date_parameter() {
    assert_eq!(
        parse_property_date_only("DTSTART;VALUE=DATE:20190704\r\n", "DTSTART"),
        "20190704"
    );
    assert_eq!(parse_property_date_only("DTEND;VALUE=DATE:20190908", "DTEND"), "20190908");
}

#[test]
fn parse_property_to_ndt_reads_date_and_time() {
    assert_eq!(
        parse_property_to_ndt("DTSTART:20190615T130000\r\n", "DTSTART"),
        Some(dt(2019, 6, 15, 13, 0, 0))
    );
    assert_eq!(
        parse_property_to_ndt("DTEND:20191231T235959", "DTEND"),
        Some(dt(2019, 12, 31, 23, 59, 59))
    );
}

#[test]
fn parse_property_to_ndt_reads_date_at_midnight() {
    assert_eq!(
        parse_property_to_ndt("DTSTART;VALUE=DATE:20190704\r\n", "DTSTART"),
        Some(dt(2019, 7, 4, 0, 0, 0))
    );
    assert_eq!(
        at_midnight(CalDate { year: 2019, month: 7, day: 4 }),
        dt(2019, 7, 4, 0, 0, 0)
    );
}

#[test]
fn parse_property_to_ndt_rejects_other_values() {
    assert_eq!(parse_property_to_ndt("DTSTART;VALUE=DATE:notadate", "DTSTART"), None);
    assert_eq!(parse_property_to_ndt("DTSTART:20191345T130000 trailing text", "DTSTART"), None);
}

#[test]
fn checked_parse_property_refuses_short_lines() {
    assert_eq!(checked_parse_property("DTSTART", "DTSTART"), None);
    assert_eq!(checked_parse_property("   DTSTART   ", "DTSTART"), None);
    assert_eq!(checked_parse_property("DTSTART:x", "DTSTART"), Some("x"));
}

#[test]
fn checked_parse_property_refuses_cuts_inside_a_character() {
    // "é" takes two bytes: byte 2 falls inside it.
    assert_eq!(checked_parse_property("Xé:", "X"), None);
    assert_eq!(checked_parse_property("X:é", "X"), Some("é"));
}

#[test]
fn checked_parse_property_to_ndt_refuses_where_a_cut_fails() {
    // Not a date and time, and too short for the date parameter.
    assert_eq!(checked_parse_property_to_ndt("DTSTART:nothing", "DTSTART"), None);
    assert_eq!(checked_parse_property_to_ndt("DTSTART", "DTSTART"), None);
    assert_eq!(
        checked_parse_property_to_ndt("DTSTART:20190615T130000", "DTSTART"),
        Some(Some(dt(2019, 6, 15, 13, 0, 0)))
    );
    assert_eq!(
        checked_parse_property_to_ndt("DTSTART;VALUE=DATE:junk", "DTSTART"),
        Some(None)
    );
}

#[test]
fn parse_property_to_ndt_ignores_surrounding_whitespace() {
    let line = "DTSTART:20190615T130000";
    assert_eq!(
        parse_property_to_ndt(&format!(" \t{}\r\n", line), "DTSTART"),
        parse_property_to_ndt(line, "DTSTART")
    );
    assert_eq!(
        parse_property_to_ndt(" \tDTSTART;VALUE=DATE:20190704\r\n", "DTSTART"),
        Some(dt(2019, 7, 4, 0, 0, 0))
    );
}

#[test]
fn date_only_value_is_eleven_bytes_further() {
    let line = "DTSTART;VALUE=DATE:20190704\r\n";
    assert_eq!(
        parse_property_date_only(line, "DTSTART"),
        &parse_property(line, "DTSTART")[11..]
    );
}

#[test]
fn parse_property_to_ndt_reads_a_four_digit_year_back() {
    assert_eq!(
        parse_property_to_ndt("DTEND:00050304T091500", "DTEND"),
        Some(dt(5, 3, 4, 9, 15, 0))
    );
    assert_eq!(
        parse_property_to_ndt("DTEND;VALUE=DATE:00050304", "DTEND"),
        Some(dt(5, 3, 4, 0, 0, 0))
    );
}

#[test]
fn parse_property_to_ndt_keeps_a_leap_second() {
    let mut expected = dt(2019, 6, 14, 23, 59, 59);
    expected.time.nanosecond = 1_000_000_000;
    assert_eq!(
        parse_property_to_ndt("DTSTART:20190614T235960", "DTSTART"),
        Some(expected)
    );
}
