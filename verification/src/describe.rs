//! Describing an event in words: its summary, its location, and when it takes place.
use crate::datetime::{
    format_date_time, four_digit_year, long_date_text, spec_at_midnight, twelve_hour_text, CalDate,
    DateTimeParts,
};
use crate::event::{
    content_line, described_event, event_properties, fold_bytes, property_line, schedule_of,
    Schedule,
};
use crate::laws::event_times_read_back;
use crate::property::{
    can_cut_at, checked_parse_property, checked_parse_property_to_ndt, cut_at, parse_property,
    parse_property_to_ndt, property_date_time, property_date_time_defined, value_offset,
};
use crate::timing::{range_captures_of, start_and_end, ParseProbes};
use icalendar::Event;
use vstd::prelude::*;
use vstd::string::*;
use vstd::utf8::{encode_utf8, is_ascii_chars, is_ascii_chars_encode_utf8};

verus! {

/// What `format!("{:?}", s)` gives for the string slice `s`.
pub uninterp spec fn debug_text(s: Seq<char>) -> Seq<char>;

/// `format!("{:?}", s)`: `s` quoted, with special characters escaped. Named, not
/// stated: which characters std escapes takes Unicode tables.
#[verifier::external_body]
pub(crate) fn debug_quoted(s: &str) -> (r: String)
    ensures
        r@ == debug_text(s@),
{
    format!("{:?}", s)
}

pub open spec fn summary_name() -> Seq<char> {
    "SUMMARY"@
}

pub open spec fn location_name() -> Seq<char> {
    "LOCATION"@
}

pub open spec fn start_name() -> Seq<char> {
    "DTSTART"@
}

pub open spec fn end_name() -> Seq<char> {
    "DTEND"@
}

/// `Event: "<summary>"`.
pub open spec fn summary_line(line: Seq<char>) -> Seq<char> {
    "Event: "@ + debug_text(cut_at(line, value_offset(summary_name())))
}

/// `Location: "<location>"`.
pub open spec fn location_line(line: Seq<char>) -> Seq<char> {
    "Location: "@ + debug_text(cut_at(line, value_offset(location_name())))
}

/// `<start time> <start date> - <end time> <end date>`, as `%I:%M%P %B %d %Y`.
pub open spec fn when_line(start: DateTimeParts, end: DateTimeParts) -> Seq<char> {
    twelve_hour_text(start.time) + " "@ + long_date_text(start.date) + " - "@ + twelve_hour_text(
        end.time,
    ) + " "@ + long_date_text(end.date)
}

pub open spec fn opt_view(o: Option<&str>) -> Option<Seq<char>> {
    match o {
        Some(s) => Some(s@),
        None => None,
    }
}

/// The property lines of an event can be described: each line is long enough to cut
/// after its name, a start line holds a date and time, and an end line, read where
/// there is a start, cuts at valid places.
pub open spec fn describable(
    summary: Option<Seq<char>>,
    location: Option<Seq<char>>,
    start: Option<Seq<char>>,
    end: Option<Seq<char>>,
) -> bool {
    &&& summary matches Some(s) ==> can_cut_at(s, value_offset(summary_name()))
    &&& location matches Some(s) ==> can_cut_at(s, value_offset(location_name()))
    &&& start matches Some(s) ==> property_date_time_defined(s, start_name()) && property_date_time(
        s,
        start_name(),
    ) is Some
    &&& (start is Some && end is Some) ==> property_date_time_defined(end.unwrap(), end_name())
}

/// The description of an event whose property lines are `summary`, `location`,
/// `start` and `end`: a summary line, a location line, and a line with the start and
/// end, each where its properties are there; the last needs an end that holds a
/// date and time.
pub open spec fn description(
    summary: Option<Seq<char>>,
    location: Option<Seq<char>>,
    start: Option<Seq<char>>,
    end: Option<Seq<char>>,
) -> Seq<Seq<char>> {
    let a = match summary {
        Some(s) => seq![summary_line(s)],
        None => Seq::empty(),
    };
    let b = match location {
        Some(s) => seq![location_line(s)],
        None => Seq::empty(),
    };
    let c = match (start, end) {
        (Some(s), Some(t)) => match property_date_time(t, end_name()) {
            Some(en) => seq![when_line(property_date_time(s, start_name()).unwrap(), en)],
            None => Seq::empty(),
        },
        _ => Seq::empty(),
    };
    a + b + c
}

pub open spec fn lines_view(v: Seq<String>) -> Seq<Seq<char>> {
    v.map_values(|s: String| s@)
}

proof fn lemma_ascii_name_lengths()
    ensures
        encode_utf8(summary_name()).len() == 7,
        encode_utf8(location_name()).len() == 8,
        encode_utf8(start_name()).len() == 7,
        encode_utf8(end_name()).len() == 5,
{
    reveal_strlit("SUMMARY");
    reveal_strlit("LOCATION");
    reveal_strlit("DTSTART");
    reveal_strlit("DTEND");
    assert(is_ascii_chars(summary_name()));
    assert(is_ascii_chars(location_name()));
    assert(is_ascii_chars(start_name()));
    assert(is_ascii_chars(end_name()));
    is_ascii_chars_encode_utf8(summary_name());
    is_ascii_chars_encode_utf8(location_name());
    is_ascii_chars_encode_utf8(start_name());
    is_ascii_chars_encode_utf8(end_name());
}

/// The line `Event: "<summary>"` or `Location: "<location>"` for a property line.
fn quoted_value_line(label: &str, line: &str, name: &str) -> (r: String)
    requires
        can_cut_at(line@, value_offset(name@)),
        value_offset(name@) <= usize::MAX,
    ensures
        r@ == label@ + debug_text(cut_at(line@, value_offset(name@))),
{
    let value = parse_property(line, name);
    let mut out = String::from_str(label);
    out.append(debug_quoted(value).as_str());
    out
}

/// The lines that describe an event with the property lines `summary`, `location`,
/// `start` and `end`, as [`description`] gives them.
pub fn pretty_lines(
    summary: Option<&str>,
    location: Option<&str>,
    start: Option<&str>,
    end: Option<&str>,
) -> (r: Vec<String>)
    requires
        describable(opt_view(summary), opt_view(location), opt_view(start), opt_view(end)),
    ensures
        lines_view(r@) == description(opt_view(summary), opt_view(location), opt_view(start), opt_view(end)),
{
    proof {
        lemma_ascii_name_lengths();
    }
    let ghost want = description(opt_view(summary), opt_view(location), opt_view(start), opt_view(end));
    let mut lines: Vec<String> = Vec::new();
    if let Some(s) = summary {
        lines.push(quoted_value_line("Event: ", s, "SUMMARY"));
    }
    if let Some(s) = location {
        lines.push(quoted_value_line("Location: ", s, "LOCATION"));
    }
    if let Some(s) = start {
        let begin = match parse_property_to_ndt(s, "DTSTART") {
            Some(dt) => dt,
            None => {
                assert(false);
                return lines;
            },
        };
        if let Some(t) = end {
            if let Some(finish) = parse_property_to_ndt(t, "DTEND") {
                let mut out = format_date_time(begin, "%I:%M%P");
                out.append(" ");
                out.append(format_date_time(begin, "%B %d %Y").as_str());
                out.append(" - ");
                out.append(format_date_time(finish, "%I:%M%P").as_str());
                out.append(" ");
                out.append(format_date_time(finish, "%B %d %Y").as_str());
                lines.push(out);
            }
        }
    }
    assert(lines_view(lines@) =~= want);
    lines
}

/// How `property_line` renders the property `key` of `e`: present exactly where `e`
/// has the property, and for at most one parameter its folded content line.
pub open spec fn rendered_as(e: Event, key: Seq<char>, text: Option<Seq<char>>) -> bool {
    &&& (text is Some <==> event_properties(e).contains_key(key))
    &&& text matches Some(t) ==> ({
        let entry = event_properties(e)[key];
        entry.params.dom().finite() && entry.params.dom().len() <= 1 ==> encode_utf8(t)
            == fold_bytes(encode_utf8(content_line(key, entry))) + seq![13u8, 10u8]
    })
}

fn as_opt_str(o: &Option<String>) -> (r: Option<&str>)
    ensures
        opt_view(r) == crate::matching::opt_string_view(*o),
{
    match o {
        Some(s) => Some(s.as_str()),
        None => None,
    }
}

/// Describes the event `e` in lines of text: `None` where a property line is too short
/// to cut after its name, or the start holds no date and time, or an end line cuts
/// badly. Otherwise the lines are [`description`] of the event's property lines.
pub fn pretty_print_lines(e: &Event) -> (r: Option<Vec<String>>)
    ensures
        exists|s: Option<Seq<char>>, l: Option<Seq<char>>, st: Option<Seq<char>>, en: Option<Seq<char>>|
            {
                &&& rendered_as(*e, summary_name(), s)
                &&& rendered_as(*e, location_name(), l)
                &&& rendered_as(*e, start_name(), st)
                &&& rendered_as(*e, end_name(), en)
                &&& (r is Some <==> describable(s, l, st, en))
                &&& (r matches Some(v) ==> lines_view(v@) == description(s, l, st, en))
            },
{
    proof {
        lemma_ascii_name_lengths();
    }
    let summary = property_line(e, "SUMMARY");
    let location = property_line(e, "LOCATION");
    let start = property_line(e, "DTSTART");
    let end = property_line(e, "DTEND");
    let s = as_opt_str(&summary);
    let l = as_opt_str(&location);
    let st = as_opt_str(&start);
    let en = as_opt_str(&end);
    let ghost gs = opt_view(s);
    let ghost gl = opt_view(l);
    let ghost gst = opt_view(st);
    let ghost gen = opt_view(en);
    assert(rendered_as(*e, summary_name(), gs));
    assert(rendered_as(*e, location_name(), gl));
    assert(rendered_as(*e, start_name(), gst));
    assert(rendered_as(*e, end_name(), gen));
    if let Some(text) = s {
        if checked_parse_property(text, "SUMMARY").is_none() {
            assert(!describable(gs, gl, gst, gen));
            return None;
        }
    }
    if let Some(text) = l {
        if checked_parse_property(text, "LOCATION").is_none() {
            assert(!describable(gs, gl, gst, gen));
            return None;
        }
    }
    if let Some(text) = st {
        match checked_parse_property_to_ndt(text, "DTSTART") {
            Some(Some(_)) => {},
            _ => {
                assert(!describable(gs, gl, gst, gen));
            return None;
            },
        }
        if let Some(t) = en {
            if checked_parse_property_to_ndt(t, "DTEND").is_none() {
                assert(!describable(gs, gl, gst, gen));
            return None;
            }
        }
    }
    Some(pretty_lines(s, l, st, en))
}

/// What a rendered start or end line reads as: `None` where there is no line, or
/// where `parse_property_to_ndt` cannot cut or read it.
pub open spec fn read_moment(line: Option<Seq<char>>, key: Seq<char>) -> Option<DateTimeParts> {
    match line {
        Some(l) => if property_date_time_defined(l, key) {
            property_date_time(l, key)
        } else {
            None
        },
        None => None,
    }
}

/// The start and end of a schedule as dates and times; whole days start at midnight.
pub open spec fn schedule_moments(s: Schedule) -> (Option<DateTimeParts>, Option<DateTimeParts>) {
    match s {
        Schedule::At(a, b) => (Some(a), Some(b)),
        Schedule::Days(a, b) => (Some(spec_at_midnight(a)), Some(spec_at_midnight(b))),
    }
}

/// The schedule's text holds it exactly: every date has a four-digit year and every
/// time falls on a whole second.
pub open spec fn written_exactly(s: Schedule) -> bool {
    match s {
        Schedule::At(a, b) => four_digit_year(a.date) && four_digit_year(b.date)
            && a.time.is_whole_second() && b.time.is_whole_second(),
        Schedule::Days(a, b) => four_digit_year(a) && four_digit_year(b),
    }
}

/// Reads a rendered line with `parse_property_to_ndt`, where it can be cut and read.
fn read_line(line: &Option<String>, key: &str) -> (r: Option<DateTimeParts>)
    requires
        crate::property::date_value_offset(key@) <= usize::MAX,
    ensures
        r == read_moment(crate::matching::opt_string_view(*line), key@),
        line matches Some(l) ==> (property_date_time_defined(l@, key@)
            ==> crate::property::reads_back(l@, key@, r)),
{
    match line {
        Some(l) => match checked_parse_property_to_ndt(l.as_str(), key) {
            Some(v) => v,
            None => None,
        },
        None => None,
    }
}

/// The start and end that the event `e` records, read back from its rendered
/// `DTSTART` and `DTEND` lines as `parse_property_to_ndt` reads them. For the event of
/// a description whose dates have four-digit years and whose times fall on whole
/// seconds, they are the start and end of its schedule: a timed event gives back its instants, a whole-day event the
/// midnights of its first and last day.
pub fn event_start_and_end(e: &Event) -> (r: (Option<DateTimeParts>, Option<DateTimeParts>))
    ensures
        exists|st: Option<Seq<char>>, en: Option<Seq<char>>|
            {
                &&& rendered_as(*e, start_name(), st)
                &&& rendered_as(*e, end_name(), en)
                &&& r == (read_moment(st, start_name()), read_moment(en, end_name()))
            },
        forall|text: Seq<char>, probes: ParseProbes, today: CalDate|
            #![trigger described_event(text, probes, today)]
            probes.is_valid() && today.is_valid() && described_event(text, probes, today) == Some(
                event_properties(*e),
            ) && written_exactly(
                schedule_of(start_and_end(range_captures_of(text), probes), today).unwrap(),
            ) ==> r == schedule_moments(
                schedule_of(start_and_end(range_captures_of(text), probes), today).unwrap(),
            ),
{
    proof {
        lemma_ascii_name_lengths();
    }
    let start = property_line(e, "DTSTART");
    let end = property_line(e, "DTEND");
    let a = read_line(&start, "DTSTART");
    let b = read_line(&end, "DTEND");
    let ghost st = crate::matching::opt_string_view(start);
    let ghost en = crate::matching::opt_string_view(end);
    assert(rendered_as(*e, start_name(), st));
    assert(rendered_as(*e, end_name(), en));
    proof {
        assert forall|text: Seq<char>, probes: ParseProbes, today: CalDate|
            probes.is_valid() && today.is_valid() && #[trigger] described_event(text, probes, today)
                == Some(event_properties(*e)) && written_exactly(
                schedule_of(start_and_end(range_captures_of(text), probes), today).unwrap(),
            ) implies (a, b) == schedule_moments(
            schedule_of(start_and_end(range_captures_of(text), probes), today).unwrap(),
        ) by {
            crate::laws::event_has_start_end_and_summary(text, probes, today);
            event_times_read_back(text, probes, today, *e, st.unwrap(), en.unwrap());
        }
    }
    (a, b)
}

} // verus!
