//! Properties of the library that span several functions.
use crate::datetime::{
    compact_date_text, compact_date_time_text, day_number, days_before_month, days_before_year,
    days_in_month, long_date_text, one_hour_later, second_number, starts_with_letter,
    twelve_hour_text, year_length, CalDate, ClockTime, DateTimeParts, MAX_YEAR,
};
use crate::describe::{
    debug_text, describable, description, end_name, rendered_as, start_name, summary_line,
};
use crate::event::{
    content_line, date_at, date_entry, date_time_entry, described_event, dtend_key, dtstart_key,
    event_properties, plain_entry, schedule_of, summary_key, Schedule,
};
use crate::property::{
    can_cut_at, cut_at, date_value_offset, name_len, property_date_time, property_date_time_defined,
    trimmed_bytes, value_offset,
};
use crate::readback::{
    all_plain_ascii, all_printable, lemma_compact_date_text, lemma_compact_date_time_text,
    lemma_concat_plain, lemma_concat_printable, lemma_escape_plain, lemma_plain_ascii,
    lemma_printable_plain, lemma_rendered_plain_line, plain_ascii, printable,
};
use crate::summary::{
    connecting_words_pattern, relative_phrase_pattern, strip_patterns, summary_patterns,
    summary_text,
};
use crate::text::{is_trimmed, is_white_space, trim_end_ws, trim_start_ws, trim_ws};
use crate::timing::{range_captures_of, start_and_end, EventStartAndEndExpr, ParseProbes};
use icalendar::Event;
use vstd::prelude::*;
use vstd::utf8::{decode_utf8_encode_utf8, encode_utf8, encode_utf8_valid_utf8, valid_utf8_split};

verus! {

proof fn lemma_trim_start_first(s: Seq<char>)
    ensures
        trim_start_ws(s).len() > 0 ==> !is_white_space(trim_start_ws(s)[0]),
        trim_start_ws(s).len() <= s.len(),
    decreases s.len(),
{
    if s.len() > 0 && is_white_space(s[0]) {
        lemma_trim_start_first(s.drop_first());
    }
}

proof fn lemma_trim_end_keeps_first(s: Seq<char>)
    ensures
        trim_end_ws(s).len() > 0 ==> trim_end_ws(s)[0] == s[0],
        trim_end_ws(s).len() > 0 ==> !is_white_space(trim_end_ws(s).last()),
        trim_end_ws(s).len() <= s.len(),
        trim_end_ws(s) =~= s.subrange(0, trim_end_ws(s).len() as int),
    decreases s.len(),
{
    if s.len() > 0 && is_white_space(s.last()) {
        lemma_trim_end_keeps_first(s.drop_last());
    }
}

proof fn lemma_trimmed_fixed(s: Seq<char>)
    requires
        is_trimmed(s),
    ensures
        trim_ws(s) == s,
{
    if s.len() > 0 {
        assert(trim_start_ws(s) == s);
        assert(trim_end_ws(s) == s);
    } else {
        assert(trim_start_ws(s) == s);
        assert(trim_end_ws(s) == s);
    }
}

/// Trimmed text has whitespace at neither end.
pub proof fn trimmed_has_no_outer_whitespace(s: Seq<char>)
    ensures
        is_trimmed(trim_ws(s)),
{
    lemma_trim_start_first(s);
    lemma_trim_end_keeps_first(trim_start_ws(s));
}

/// Trimming twice is trimming once.
pub proof fn trim_is_idempotent(s: Seq<char>)
    ensures
        trim_ws(trim_ws(s)) == trim_ws(s),
{
    trimmed_has_no_outer_whitespace(s);
    lemma_trimmed_fixed(trim_ws(s));
}

/// The summary of a description never begins or ends with whitespace, and trimming
/// it changes nothing.
pub proof fn summary_is_trimmed(text: Seq<char>)
    ensures
        is_trimmed(summary_text(text)),
        trim_ws(summary_text(text)) == summary_text(text),
{
    trimmed_has_no_outer_whitespace(strip_patterns(text, summary_patterns()));
    trim_is_idempotent(strip_patterns(text, summary_patterns()));
}

/// The three property names are different.
proof fn keys_differ()
    ensures
        dtstart_key() != dtend_key(),
        dtstart_key() != summary_key(),
        dtend_key() != summary_key(),
{
    reveal_strlit("DTSTART");
    reveal_strlit("DTEND");
    reveal_strlit("SUMMARY");
    assert(dtstart_key().len() != dtend_key().len());
    assert(dtend_key().len() != summary_key().len());
    assert(dtstart_key()[0] != summary_key()[0]);
}

proof fn lemma_days_before_next_year(y: int)
    ensures
        days_before_year(y + 1) == days_before_year(y) + year_length(y),
{
    if y >= 0 {
        assert(days_before_year(y + 1) == days_before_year(y) + year_length(y));
    } else {
        assert(days_before_year(y) == days_before_year(y + 1) - year_length(y));
    }
}

proof fn lemma_year_of_months(y: int)
    ensures
        days_before_month(y, 12) + 31 == year_length(y),
{
    reveal_with_fuel(days_before_month, 12);
}

/// The day after a valid date is numbered one more.
pub proof fn next_day_is_one_day_later(d: CalDate)
    requires
        d.is_valid(),
    ensures
        day_number(d.next_day()) == day_number(d) + 1,
        d.next_day().year <= MAX_YEAR ==> d.next_day().is_valid(),
{
    let y = d.year as int;
    let m = d.month as int;
    if d.day < days_in_month(y, m) {
    } else if d.month < 12 {
        assert(days_before_month(y, m + 1) == days_before_month(y, m) + days_in_month(y, m));
    } else {
        lemma_days_before_next_year(y);
        lemma_year_of_months(y);
    }
}

/// One hour later is 3600 seconds later, on a valid date and time.
pub proof fn one_hour_later_is_3600_seconds(dt: DateTimeParts)
    requires
        dt.is_valid(),
    ensures
        one_hour_later(dt) matches Some(n) ==> second_number(n) == second_number(dt) + 3600
            && n.is_valid(),
{
    if dt.time.hour >= 23 {
        next_day_is_one_day_later(dt.date);
    }
}

/// An event has exactly three properties: its start, its end and its summary.
pub proof fn event_has_start_end_and_summary(text: Seq<char>, probes: ParseProbes, today: CalDate)
    requires
        described_event(text, probes, today) is Some,
    ensures
        described_event(text, probes, today).unwrap().dom() == set![dtstart_key(), dtend_key(), summary_key()],
{
    keys_differ();
    assert(described_event(text, probes, today).unwrap().dom() =~= set![dtstart_key(), dtend_key(), summary_key()]);
}

/// A description with a start time and no range lasts one hour: its end is 3600
/// seconds after its start, which is that time on the text's date, or on today
/// where the text names no date.
pub proof fn lone_start_lasts_one_hour(text: Seq<char>, probes: ParseProbes, today: CalDate, t: ClockTime)
    requires
        probes.is_valid(),
        today.is_valid(),
        described_event(text, probes, today) is Some,
        start_and_end(range_captures_of(text), probes) == EventStartAndEndExpr::Starts(t)
            || (probes.text_date matches Some(d) && start_and_end(range_captures_of(text), probes)
            == EventStartAndEndExpr::StartsWithDate(t, d)),
    ensures
        ({
            let day = match probes.text_date {
                Some(d) => d,
                None => today,
            };
            let props = described_event(text, probes, today).unwrap();
            &&& schedule_of(start_and_end(range_captures_of(text), probes), today) matches Some(
                Schedule::At(s, e),
            )
            &&& s == date_at(day, t)
            &&& second_number(e) == second_number(s) + 3600
            &&& props[dtstart_key()] == date_time_entry(s)
            &&& props[dtend_key()] == date_time_entry(e)
        }),
{
    let expr = start_and_end(range_captures_of(text), probes);
    let day = match probes.text_date {
        Some(d) => d,
        None => today,
    };
    if expr == EventStartAndEndExpr::Starts(t) {
        assert(probes.text_date is None);
    }
    assert(day.is_valid());
    assert(t.is_valid()) by {
        if expr == EventStartAndEndExpr::Starts(t) {
            assert(probes.text_time == Some(t));
        }
    }
    one_hour_later_is_3600_seconds(date_at(day, t));
    keys_differ();
}

proof fn lemma_key_printable(key: Seq<char>)
    requires
        key == dtstart_key() || key == dtend_key(),
    ensures
        all_printable(key),
        5 <= key.len() <= 7,
        name_len(key) == key.len(),
{
    reveal_strlit("DTSTART");
    reveal_strlit("DTEND");
    lemma_printable_plain(key);
    lemma_plain_ascii(key);
}

/// The start or end line of an event rendered from a date and time: it can be cut
/// after the name and after the date parameter, so reading its date and time cannot
/// fail on a cut, and what follows `NAME:` is the date and time as `YYYYMMDDTHHMMSS`.
pub proof fn date_time_line_reads_back(e: Event, key: Seq<char>, dt: DateTimeParts, line: Seq<char>)
    requires
        key == dtstart_key() || key == dtend_key(),
        dt.is_valid(),
        event_properties(e).contains_key(key),
        event_properties(e)[key] == date_time_entry(dt),
        rendered_as(e, key, Some(line)),
    ensures
        property_date_time_defined(line, key),
        cut_at(line, value_offset(key)) == compact_date_time_text(dt),
{
    let v = compact_date_time_text(dt);
    lemma_key_printable(key);
    lemma_compact_date_time_text(dt);
    lemma_printable_plain(v);
    lemma_escape_plain(v);
    let entry = event_properties(e)[key];
    assert(entry.params.dom() =~= Set::<Seq<char>>::empty());
    let c = key + seq![':'] + v;
    assert(content_line(key, entry) == c);
    lemma_concat_printable(key, seq![':']);
    lemma_concat_printable(key + seq![':'], v);
    lemma_printable_plain(c);
    lemma_rendered_plain_line(line, c);
    assert(can_cut_at(line, key.len() + 1int));
    assert(can_cut_at(line, key.len() + 12int));
    assert(c.skip(key.len() + 1int) =~= v);
}

/// The start or end line of an event rendered from a date: it can be cut after the
/// name and after the date parameter, and what follows `NAME;VALUE=DATE:` is the date
/// as `YYYYMMDD`.
pub proof fn date_line_reads_back(e: Event, key: Seq<char>, d: CalDate, line: Seq<char>)
    requires
        key == dtstart_key() || key == dtend_key(),
        d.is_valid(),
        event_properties(e).contains_key(key),
        event_properties(e)[key] == date_entry(d),
        rendered_as(e, key, Some(line)),
    ensures
        property_date_time_defined(line, key),
        cut_at(line, date_value_offset(key)) == compact_date_text(d),
        starts_with_letter(cut_at(line, value_offset(key))),
{
    let v = compact_date_text(d);
    lemma_key_printable(key);
    lemma_compact_date_text(d);
    reveal_strlit("VALUE");
    reveal_strlit("DATE");
    let entry = event_properties(e)[key];
    let dom = entry.params.dom();
    assert(dom =~= Set::<Seq<char>>::empty().insert("VALUE"@));
    assert(dom.len() == 1);
    assert(dom.contains(dom.choose()));
    assert(dom.choose() == "VALUE"@);
    let param = seq![';'] + "VALUE"@ + seq!['='] + "DATE"@ + seq![':'];
    let c = key + param + v;
    assert(content_line(key, entry) =~= c);
    assert(all_printable(param));
    lemma_concat_printable(key, param);
    lemma_concat_printable(key + param, v);
    lemma_printable_plain(c);
    lemma_rendered_plain_line(line, c);
    assert(can_cut_at(line, key.len() + 1int));
    assert(can_cut_at(line, key.len() + 12int));
    assert(c.skip(key.len() + 12int) =~= v);
    assert(c.skip(key.len() + 1int)[0] == 'V');
}

proof fn lemma_start_and_end_valid(caps: Option<(Option<Seq<char>>, Option<Seq<char>>)>, p: ParseProbes)
    requires
        p.is_valid(),
    ensures
        start_and_end(caps, p).is_valid(),
{
}

proof fn lemma_schedule_valid(expr: EventStartAndEndExpr, today: CalDate)
    requires
        expr.is_valid(),
        today.is_valid(),
    ensures
        match schedule_of(expr, today) {
            Some(Schedule::At(s, f)) => s.is_valid() && f.is_valid(),
            Some(Schedule::Days(a, b)) => a.is_valid() && b.is_valid(),
            None => true,
        },
{
    match expr {
        EventStartAndEndExpr::Starts(t) => one_hour_later_is_3600_seconds(date_at(today, t)),
        EventStartAndEndExpr::StartsWithDate(t, d) => one_hour_later_is_3600_seconds(date_at(d, t)),
        _ => {},
    }
}

/// What the event of a description records as its start and end reads back from its
/// rendered `DTSTART` and `DTEND` lines: both lines cut at valid places, so
/// `parse_property_to_ndt` accepts them; for a timed event the text after `NAME:` is
/// the instant as `YYYYMMDDTHHMMSS`, for whole days the text after
/// `NAME;VALUE=DATE:` is the day as `YYYYMMDD`.
pub proof fn event_times_read_back(
    text: Seq<char>,
    probes: ParseProbes,
    today: CalDate,
    e: Event,
    start_line: Seq<char>,
    end_line: Seq<char>,
)
    requires
        probes.is_valid(),
        today.is_valid(),
        described_event(text, probes, today) == Some(event_properties(e)),
        rendered_as(e, dtstart_key(), Some(start_line)),
        rendered_as(e, dtend_key(), Some(end_line)),
    ensures
        property_date_time_defined(start_line, dtstart_key()),
        property_date_time_defined(end_line, dtend_key()),
        match schedule_of(start_and_end(range_captures_of(text), probes), today) {
            Some(Schedule::At(s, f)) => cut_at(start_line, value_offset(dtstart_key()))
                == compact_date_time_text(s) && cut_at(end_line, value_offset(dtend_key()))
                == compact_date_time_text(f),
            Some(Schedule::Days(a, b)) => cut_at(start_line, date_value_offset(dtstart_key()))
                == compact_date_text(a) && cut_at(end_line, date_value_offset(dtend_key()))
                == compact_date_text(b) && starts_with_letter(
                cut_at(start_line, value_offset(dtstart_key())),
            ) && starts_with_letter(cut_at(end_line, value_offset(dtend_key()))),
            None => false,
        },
{
    let expr = start_and_end(range_captures_of(text), probes);
    lemma_start_and_end_valid(range_captures_of(text), probes);
    lemma_schedule_valid(expr, today);
    keys_differ();
    match schedule_of(expr, today) {
        Some(Schedule::At(s, f)) => {
            date_time_line_reads_back(e, dtstart_key(), s, start_line);
            date_time_line_reads_back(e, dtend_key(), f, end_line);
        },
        Some(Schedule::Days(a, b)) => {
            date_line_reads_back(e, dtstart_key(), a, start_line);
            date_line_reads_back(e, dtend_key(), b, end_line);
        },
        None => {},
    }
}

/// The summary that an event records reads back from its rendered `SUMMARY` line,
/// for a summary of ASCII letters, digits, punctuation and inner spaces that fits on
/// one line: what follows `SUMMARY:` is the summary.
pub proof fn summary_line_reads_back(e: Event, summary: Seq<char>, line: Seq<char>)
    requires
        event_properties(e).contains_key(summary_key()),
        event_properties(e)[summary_key()] == plain_entry(summary),
        all_plain_ascii(summary),
        summary.len() <= 67,
        is_trimmed(summary),
        rendered_as(e, summary_key(), Some(line)),
    ensures
        can_cut_at(line, value_offset(summary_key())),
        cut_at(line, value_offset(summary_key())) == summary,
{
    reveal_strlit("SUMMARY");
    let key = summary_key();
    assert(all_printable(key));
    lemma_printable_plain(key);
    lemma_plain_ascii(key);
    lemma_escape_plain(summary);
    let entry = event_properties(e)[key];
    assert(entry.params.dom() =~= Set::<Seq<char>>::empty());
    let c = key + seq![':'] + summary;
    assert(content_line(key, entry) == c);
    assert(all_plain_ascii(seq![':']));
    lemma_concat_plain(key, seq![':']);
    lemma_concat_plain(key + seq![':'], summary);
    assert(printable(c[0]));
    assert(printable(c.last())) by {
        if summary.len() > 0 {
            assert(c.last() == summary.last());
            assert(plain_ascii(summary[summary.len() - 1]));
        }
    }
    lemma_rendered_plain_line(line, c);
    assert(can_cut_at(line, key.len() + 1int));
    assert(c.skip(key.len() + 1int) =~= summary);
}

/// Describing the event of a description names its summary: where the summary is
/// ASCII text that fits on one line, the `Event:` line of the event's description
/// quotes exactly the summary of the text.
pub proof fn description_names_the_summary(
    text: Seq<char>,
    probes: ParseProbes,
    today: CalDate,
    e: Event,
    line: Seq<char>,
)
    requires
        described_event(text, probes, today) == Some(event_properties(e)),
        all_plain_ascii(summary_text(text)),
        summary_text(text).len() <= 67,
        rendered_as(e, summary_key(), Some(line)),
    ensures
        can_cut_at(line, value_offset(summary_key())),
        summary_line(line) == "Event: "@ + debug_text(summary_text(text)),
{
    summary_is_trimmed(text);
    summary_line_reads_back(e, summary_text(text), line);
}

proof fn lemma_trim_start_skips_white(lead: Seq<char>, x: Seq<char>)
    requires
        forall|i: int| 0 <= i < lead.len() ==> is_white_space(#[trigger] lead[i]),
    ensures
        trim_start_ws(lead + x) == trim_start_ws(x),
    decreases lead.len(),
{
    if lead.len() == 0 {
        assert(lead + x =~= x);
    } else {
        assert((lead + x).drop_first() =~= lead.drop_first() + x);
        assert(is_white_space(lead[0]));
        lemma_trim_start_skips_white(lead.drop_first(), x);
    }
}

proof fn lemma_trim_end_skips_white(x: Seq<char>, trail: Seq<char>)
    requires
        forall|i: int| 0 <= i < trail.len() ==> is_white_space(#[trigger] trail[i]),
    ensures
        trim_end_ws(x + trail) == trim_end_ws(x),
    decreases trail.len(),
{
    if trail.len() == 0 {
        assert(x + trail =~= x);
    } else {
        assert((x + trail).drop_last() =~= x + trail.drop_last());
        assert(is_white_space(trail[trail.len() - 1]));
        lemma_trim_end_skips_white(x, trail.drop_last());
    }
}

proof fn lemma_trim_start_keeps_trail(s: Seq<char>, trail: Seq<char>)
    requires
        forall|i: int| 0 <= i < trail.len() ==> is_white_space(#[trigger] trail[i]),
    ensures
        trim_start_ws(s).len() > 0 ==> trim_start_ws(s + trail) == trim_start_ws(s) + trail,
        trim_start_ws(s).len() == 0 ==> trim_start_ws(s + trail).len() == 0,
    decreases s.len(),
{
    if s.len() == 0 {
        assert(trail + s =~= trail);
        assert(s + trail =~= trail);
        lemma_trim_start_skips_white(trail, s);
    } else if is_white_space(s[0]) {
        assert((s + trail).drop_first() =~= s.drop_first() + trail);
        lemma_trim_start_keeps_trail(s.drop_first(), trail);
    }
}

/// Whitespace around a property line changes nothing: the line trims to the same
/// text, so `parse_property_to_ndt` cuts and reads it alike (the line break that
/// `fmt_write` ends a line with among such whitespace).
pub proof fn surrounding_whitespace_is_ignored(
    s: Seq<char>,
    lead: Seq<char>,
    trail: Seq<char>,
    property: Seq<char>,
)
    requires
        forall|i: int| 0 <= i < lead.len() ==> is_white_space(#[trigger] lead[i]),
        forall|i: int| 0 <= i < trail.len() ==> is_white_space(#[trigger] trail[i]),
    ensures
        trim_ws(lead + s + trail) == trim_ws(s),
        property_date_time_defined(lead + s + trail, property) == property_date_time_defined(
            s,
            property,
        ),
        property_date_time(lead + s + trail, property) == property_date_time(s, property),
{
    let padded = lead + s + trail;
    assert(padded =~= lead + (s + trail));
    lemma_trim_start_skips_white(lead, s + trail);
    lemma_trim_start_keeps_trail(s, trail);
    if trim_start_ws(s).len() > 0 {
        lemma_trim_end_skips_white(trim_start_ws(s), trail);
    } else {
        assert(trim_start_ws(s + trail) =~= trim_start_ws(s));
    }
    assert(trimmed_bytes(padded) == trimmed_bytes(s));
}

/// The value of a date-only line is the value after the name with eleven more bytes
/// cut off, those of `VALUE=DATE:`, wherever both cuts fall between characters.
pub proof fn date_only_value_skips_eleven_bytes(s: Seq<char>, property: Seq<char>)
    requires
        can_cut_at(s, value_offset(property)),
        can_cut_at(s, date_value_offset(property)),
    ensures
        encode_utf8(cut_at(s, date_value_offset(property))) == encode_utf8(
            cut_at(s, value_offset(property)),
        ).subrange(11, encode_utf8(cut_at(s, value_offset(property))).len() as int),
{
    let b = trimmed_bytes(s);
    let n = b.len() as int;
    let k1 = value_offset(property);
    let k2 = date_value_offset(property);
    encode_utf8_valid_utf8(trim_ws(s));
    valid_utf8_split(b, k1);
    valid_utf8_split(b, k2);
    decode_utf8_encode_utf8(b.subrange(k1, n));
    decode_utf8_encode_utf8(b.subrange(k2, n));
    assert(b.subrange(k2, n) =~= b.subrange(k1, n).subrange(11, n - k1));
}

/// A range decides when both its sides read as times: the event runs from the first
/// time to the second, on the date of the whole text where it names one.
pub proof fn time_range_decides(
    a: Seq<char>,
    b: Seq<char>,
    p: ParseProbes,
    s: ClockTime,
    e: ClockTime,
)
    requires
        p.start_time == Some(s),
        p.end_time == Some(e),
    ensures
        start_and_end(Some((Some(a), Some(b))), p) == match p.text_date {
            Some(d) => EventStartAndEndExpr::StartsAndEndsWithDate(s, e, d),
            None => EventStartAndEndExpr::StartsAndEnds(s, e),
        },
{
}

/// A range whose sides do not both read as times but both read as dates is a run of
/// whole days from the first date to the second.
pub proof fn date_range_decides(a: Seq<char>, b: Seq<char>, p: ParseProbes, x: CalDate, y: CalDate)
    requires
        !(p.start_time is Some && p.end_time is Some),
        p.start_date == Some(x),
        p.end_date == Some(y),
    ensures
        start_and_end(Some((Some(a), Some(b))), p) == EventStartAndEndExpr::AllDayStartsAndEnds(x, y),
{
}

/// A range that says nothing (its sides read neither both as times nor both as
/// dates), or a text without a whole range, decides exactly as a text without any
/// range: by what the whole text reads.
pub proof fn unread_range_is_ignored(
    caps: Option<(Option<Seq<char>>, Option<Seq<char>>)>,
    p: ParseProbes,
)
    requires
        !(caps matches Some((Some(_), Some(_)))) || (!(p.start_time is Some && p.end_time is Some)
            && !(p.start_date is Some && p.end_date is Some)),
    ensures
        start_and_end(caps, p) == start_and_end(None, p),
{
}

/// Without a range, the whole text decides: a time and a date make a start on that
/// date, a time alone a start on an unnamed day, a date alone that whole day, and
/// neither leaves the event unknown.
pub proof fn whole_text_decides(p: ParseProbes)
    ensures
        (p.text_time, p.text_date) matches (Some(t), Some(d)) ==> start_and_end(None, p)
            == EventStartAndEndExpr::StartsWithDate(t, d),
        (p.text_time, p.text_date) matches (Some(t), None) ==> start_and_end(None, p)
            == EventStartAndEndExpr::Starts(t),
        (p.text_time, p.text_date) matches (None, Some(d)) ==> start_and_end(None, p)
            == EventStartAndEndExpr::AllDay(d),
        (p.text_time, p.text_date) matches (None, None) ==> start_and_end(None, p)
            == EventStartAndEndExpr::Unknown,
{
}

/// A description whose only reading is a date is that whole day, whatever range the
/// pattern found in it, as long as the range's sides read neither both as times nor
/// both as dates.
pub proof fn lone_date_is_a_whole_day(
    caps: Option<(Option<Seq<char>>, Option<Seq<char>>)>,
    p: ParseProbes,
    d: CalDate,
)
    requires
        p.text_time is None,
        p.text_date == Some(d),
        !(p.start_time is Some && p.end_time is Some),
        !(p.start_date is Some && p.end_date is Some),
    ensures
        start_and_end(caps, p) == EventStartAndEndExpr::AllDay(d),
{
    unread_range_is_ignored(caps, p);
    whole_text_decides(p);
}

/// A relative phrase such as "next week" is removed whole: the pattern that removes a
/// relative word with the word after it is applied before the pattern that removes
/// connecting words, among them "next", "last" and "this" on their own.
pub proof fn relative_phrases_go_before_connecting_words()
    ensures
        exists|i: int, j: int|
            0 <= i < j < summary_patterns().len() && summary_patterns()[i]
                == relative_phrase_pattern() && summary_patterns()[j] == connecting_words_pattern(),
{
    assert(summary_patterns()[5] == relative_phrase_pattern());
    assert(summary_patterns()[6] == connecting_words_pattern());
}

/// The time line of a description names the start's time and date, then, after
/// " - ", the end's own time and date, each as `%I:%M%P %B %d %Y` writes it, read
/// from the start and end lines.
pub proof fn time_line_names_start_then_end(
    summary: Option<Seq<char>>,
    location: Option<Seq<char>>,
    start: Seq<char>,
    end: Seq<char>,
)
    requires
        describable(summary, location, Some(start), Some(end)),
        property_date_time(end, end_name()) is Some,
    ensures
        ({
            let lines = description(summary, location, Some(start), Some(end));
            let a = property_date_time(start, start_name()).unwrap();
            let b = property_date_time(end, end_name()).unwrap();
            &&& lines.len() > 0
            &&& lines.last() == twelve_hour_text(a.time) + " "@ + long_date_text(a.date) + " - "@
                + twelve_hour_text(b.time) + " "@ + long_date_text(b.date)
        }),
{
}

/// An event without a time or a date takes all of the given day: its start and its
/// end are that day.
pub proof fn undated_event_takes_all_of_today(text: Seq<char>, probes: ParseProbes, today: CalDate)
    requires
        start_and_end(range_captures_of(text), probes) == EventStartAndEndExpr::Unknown,
    ensures
        described_event(text, probes, today) is Some,
        described_event(text, probes, today).unwrap()[dtstart_key()] == date_entry(today),
        described_event(text, probes, today).unwrap()[dtend_key()] == date_entry(today),
{
    keys_differ();
}

/// Every description has an event on a valid day, except a lone start in the last
/// hour of chrono's last day, whose end an hour later would leave chrono's range.
pub proof fn event_exists_before_the_last_hour(text: Seq<char>, probes: ParseProbes, today: CalDate)
    requires
        probes.is_valid(),
        today.is_valid(),
        described_event(text, probes, today) is None,
    ensures
        ({
            let expr = start_and_end(range_captures_of(text), probes);
            let day = match expr {
                EventStartAndEndExpr::StartsWithDate(_, d) => d,
                _ => today,
            };
            &&& expr is Starts || expr is StartsWithDate
            &&& day == CalDate { year: MAX_YEAR, month: 12, day: 31 }
            &&& match expr {
                EventStartAndEndExpr::Starts(t) => t.hour == 23,
                EventStartAndEndExpr::StartsWithDate(t, _) => t.hour == 23,
                _ => false,
            }
        }),
{
    lemma_start_and_end_valid(range_captures_of(text), probes);
}

} // verus!
