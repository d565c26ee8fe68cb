//! Deciding when an event starts and ends from its one-line description.
//!
//! A description is first searched for a range (`7-9pm`, `9/1-9/8`, `7 to 9`).
//! The pieces on either side of the range, and the whole description, are read by
//! a time parser and a date parser; the library receives what they read as
//! [`ParseProbes`] and decides from it.
use crate::datetime::{CalDate, ClockTime};
use crate::matching::{captures_view, first_named_captures, regex_compiles, regex_named_captures};
use vstd::prelude::*;

verus! {

/// When an event starts and ends, as far as its description says.
#[derive(Clone, Copy, Debug, PartialEq, Eq, Structural)]
pub enum EventStartAndEndExpr {
    /// Neither a time nor a date.
    Unknown,
    /// A start time, on an unnamed day.
    Starts(ClockTime),
    /// A start and an end time, on an unnamed day.
    StartsAndEnds(ClockTime, ClockTime),
    /// A start time on a given day.
    StartsWithDate(ClockTime, CalDate),
    /// A start and an end time on a given day.
    StartsAndEndsWithDate(ClockTime, ClockTime, CalDate),
    /// A whole day.
    AllDay(CalDate),
    /// A run of whole days, from the first date to the second.
    AllDayStartsAndEnds(CalDate, CalDate),
}

/// What the time and the date parser read in a description: in the piece before a
/// range, in the piece after it, and in the whole text. A piece that was not read,
/// or in which the parser found nothing, is `None`.
#[derive(Clone, Copy, Debug, PartialEq, Eq, Structural)]
pub struct ParseProbes {
    pub start_time: Option<ClockTime>,
    pub end_time: Option<ClockTime>,
    pub start_date: Option<CalDate>,
    pub end_date: Option<CalDate>,
    pub text_time: Option<ClockTime>,
    pub text_date: Option<CalDate>,
}

pub open spec fn opt_time_valid(t: Option<ClockTime>) -> bool {
    t matches Some(x) ==> x.is_valid()
}

pub open spec fn opt_date_valid(d: Option<CalDate>) -> bool {
    d matches Some(x) ==> x.is_valid()
}

impl ParseProbes {
    /// Every time and date read is a real one.
    pub open spec fn is_valid(self) -> bool {
        &&& opt_time_valid(self.start_time)
        &&& opt_time_valid(self.end_time)
        &&& opt_date_valid(self.start_date)
        &&& opt_date_valid(self.end_date)
        &&& opt_time_valid(self.text_time)
        &&& opt_date_valid(self.text_date)
    }
}

impl EventStartAndEndExpr {
    /// Every time and date it holds is a real one.
    pub open spec fn is_valid(self) -> bool {
        match self {
            EventStartAndEndExpr::Unknown => true,
            EventStartAndEndExpr::Starts(t) => t.is_valid(),
            EventStartAndEndExpr::StartsAndEnds(s, e) => s.is_valid() && e.is_valid(),
            EventStartAndEndExpr::StartsWithDate(t, d) => t.is_valid() && d.is_valid(),
            EventStartAndEndExpr::StartsAndEndsWithDate(s, e, d) => s.is_valid() && e.is_valid()
                && d.is_valid(),
            EventStartAndEndExpr::AllDay(d) => d.is_valid(),
            EventStartAndEndExpr::AllDayStartsAndEnds(a, b) => a.is_valid() && b.is_valid(),
        }
    }
}

/// The pattern of a range: a piece of word characters and slashes, an optional space,
/// `-` or `to`, an optional space, and another such piece.
pub open spec fn range_pattern() -> Seq<char> {
    r"(?P<start>[/\w]+)(\s?(-|to)\s?)(?P<end>[/\w]+)"@
}

/// The pieces of `text` on either side of its first range.
pub open spec fn range_captures_of(text: Seq<char>) -> Option<(Option<Seq<char>>, Option<Seq<char>>)> {
    regex_named_captures(range_pattern(), text, "start"@, "end"@)
}

/// What a range says, where it says anything: two times (on the date of the whole
/// text, if it has one), or else two dates.
pub open spec fn range_reading(
    caps: Option<(Option<Seq<char>>, Option<Seq<char>>)>,
    p: ParseProbes,
) -> Option<EventStartAndEndExpr> {
    match caps {
        Some((Some(_), end)) => {
            if p.start_time is Some && end is Some && p.end_time is Some {
                match p.text_date {
                    Some(d) => Some(
                        EventStartAndEndExpr::StartsAndEndsWithDate(
                            p.start_time.unwrap(),
                            p.end_time.unwrap(),
                            d,
                        ),
                    ),
                    None => Some(
                        EventStartAndEndExpr::StartsAndEnds(p.start_time.unwrap(), p.end_time.unwrap()),
                    ),
                }
            } else if p.start_date is Some && end is Some && p.end_date is Some {
                Some(EventStartAndEndExpr::AllDayStartsAndEnds(p.start_date.unwrap(), p.end_date.unwrap()))
            } else {
                None
            }
        },
        _ => None,
    }
}

/// What the whole text says: a time and a date, a time, a date, or nothing.
pub open spec fn text_reading(p: ParseProbes) -> EventStartAndEndExpr {
    match (p.text_time, p.text_date) {
        (Some(t), Some(d)) => EventStartAndEndExpr::StartsWithDate(t, d),
        (Some(t), None) => EventStartAndEndExpr::Starts(t),
        (None, Some(d)) => EventStartAndEndExpr::AllDay(d),
        (None, None) => EventStartAndEndExpr::Unknown,
    }
}

/// The start and end of an event: what its range says, or else what its whole text says.
pub open spec fn start_and_end(
    caps: Option<(Option<Seq<char>>, Option<Seq<char>>)>,
    p: ParseProbes,
) -> EventStartAndEndExpr {
    match range_reading(caps, p) {
        Some(e) => e,
        None => text_reading(p),
    }
}

/// The pieces of `text` on either side of its first range (`Some(None)` where it has
/// none), or `None` where the range pattern does not compile.
pub fn range_captures(text: &str) -> (r: Option<Option<(Option<String>, Option<String>)>>)
    ensures
        r is Some <==> regex_compiles(range_pattern()),
        r matches Some(c) ==> captures_view(c) == range_captures_of(text@),
{
    first_named_captures(r"(?P<start>[/\w]+)(\s?(-|to)\s?)(?P<end>[/\w]+)", text, "start", "end")
}

/// The start and end of an event, from the pieces around its range and what the
/// parsers read.
pub fn decide_start_and_end(
    caps: &Option<(Option<String>, Option<String>)>,
    probes: &ParseProbes,
) -> (r: EventStartAndEndExpr)
    ensures
        r == start_and_end(captures_view(*caps), *probes),
        probes.is_valid() ==> r.is_valid(),
{
    if let Some((Some(_start), end)) = caps {
        if end.is_some() {
            if let (Some(start_time), Some(end_time)) = (probes.start_time, probes.end_time) {
                match probes.text_date {
                    Some(d) => {
                        return EventStartAndEndExpr::StartsAndEndsWithDate(start_time, end_time, d);
                    },
                    None => {
                        return EventStartAndEndExpr::StartsAndEnds(start_time, end_time);
                    },
                }
            }
            if let (Some(start_date), Some(end_date)) = (probes.start_date, probes.end_date) {
                return EventStartAndEndExpr::AllDayStartsAndEnds(start_date, end_date);
            }
        }
    }
    match (probes.text_time, probes.text_date) {
        (Some(t), Some(d)) => EventStartAndEndExpr::StartsWithDate(t, d),
        (Some(t), None) => EventStartAndEndExpr::Starts(t),
        (None, Some(d)) => EventStartAndEndExpr::AllDay(d),
        (None, None) => EventStartAndEndExpr::Unknown,
    }
}

/// The start and end of the event described by `text`, given what the parsers read
/// in it.
pub fn get_start_and_end(text: &str, probes: &ParseProbes) -> (r: EventStartAndEndExpr)
    requires
        regex_compiles(range_pattern()),
    ensures
        r == start_and_end(range_captures_of(text@), *probes),
        probes.is_valid() ==> r.is_valid(),
{
    match range_captures(text) {
        Some(caps) => decide_start_and_end(&caps, probes),
        None => decide_start_and_end(&None, probes),
    }
}

/// [`get_start_and_end`] for every text: `None` where the range pattern does not compile.
pub fn checked_start_and_end(text: &str, probes: &ParseProbes) -> (r: Option<EventStartAndEndExpr>)
    ensures
        r is Some <==> regex_compiles(range_pattern()),
        r matches Some(e) ==> e == start_and_end(range_captures_of(text@), *probes),
{
    match range_captures(text) {
        Some(caps) => Some(decide_start_and_end(&caps, probes)),
        None => None,
    }
}

} // verus!
