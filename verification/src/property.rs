//! Reading the value out of a rendered property line such as
//! `DTSTART:20190615T130000` or `DTSTART;VALUE=DATE:20190704`.
use crate::datetime::{
    at_midnight, chrono_parse_date, chrono_parse_date_time, compact_date_text,
    compact_date_time_text, date_layout, date_time_layout, four_digit_year, parse_date_text,
    parse_date_time_text, spec_at_midnight, starts_with_letter, CalDate, DateTimeParts,
};
use crate::text::{trim_str, trim_ws};
use vstd::prelude::*;
use vstd::string::*;
use vstd::utf8::*;

verus! {

broadcast use encode_utf8_decode_utf8, encode_utf8_valid_utf8;

/// Length in bytes of `";VALUE=DATE:"`, the parameter that marks a date-only value.
pub const DATE_PARAM_LEN: usize = 12usize;

/// The UTF-8 bytes of `s` once trimmed.
pub open spec fn trimmed_bytes(s: Seq<char>) -> Seq<u8> {
    encode_utf8(trim_ws(s))
}

/// Byte offset `k` lies within the trimmed `s`, at the start of a character or at its end.
pub open spec fn can_cut_at(s: Seq<char>, k: int) -> bool {
    &&& 0 <= k <= trimmed_bytes(s).len()
    &&& is_char_boundary(trimmed_bytes(s), k)
}

/// What follows byte offset `k` of the trimmed `s`.
pub open spec fn cut_at(s: Seq<char>, k: int) -> Seq<char> {
    decode_utf8(trimmed_bytes(s).subrange(k, trimmed_bytes(s).len() as int))
}

/// Byte length of a property name.
pub open spec fn name_len(property: Seq<char>) -> int {
    encode_utf8(property).len() as int
}

/// The offset of the value in `NAME:value`.
pub open spec fn value_offset(property: Seq<char>) -> int {
    name_len(property) + 1
}

/// The offset of the value in `NAME;VALUE=DATE:value`.
pub open spec fn date_value_offset(property: Seq<char>) -> int {
    name_len(property) + DATE_PARAM_LEN
}

/// The date and time that the property line `s` holds: its value after `NAME:` read
/// as a date and time, or else its value after `NAME;VALUE=DATE:` read as a date,
/// taken at midnight.
pub open spec fn property_date_time(s: Seq<char>, property: Seq<char>) -> Option<DateTimeParts> {
    match chrono_parse_date_time(cut_at(s, value_offset(property)), date_time_layout()) {
        Some(dt) => Some(dt),
        None => match chrono_parse_date(cut_at(s, date_value_offset(property)), date_layout()) {
            Some(d) => Some(spec_at_midnight(d)),
            None => None,
        },
    }
}

/// The inputs on which reading a date and time out of a property line cuts the line
/// only at valid places: after `NAME:`, and, where that value is no date and time,
/// after `NAME;VALUE=DATE:`.
pub open spec fn property_date_time_defined(s: Seq<char>, property: Seq<char>) -> bool {
    &&& can_cut_at(s, value_offset(property))
    &&& chrono_parse_date_time(cut_at(s, value_offset(property)), date_time_layout()) is None
        ==> can_cut_at(s, date_value_offset(property))
}

/// Reading the property line `s` gives `r` where its value is written as chrono's
/// `format` writes it for a four-digit year: a date and time on a whole second after
/// `NAME:` reads back as that date and time; a date after `NAME;VALUE=DATE:` reads
/// back as its midnight.
pub open spec fn reads_back(s: Seq<char>, property: Seq<char>, r: Option<DateTimeParts>) -> bool {
    &&& forall|dt: DateTimeParts|
        #![trigger compact_date_time_text(dt)]
        dt.is_valid() && dt.time.is_whole_second() && four_digit_year(dt.date) && cut_at(
            s,
            value_offset(property),
        )
            == compact_date_time_text(dt) ==> r == Some(dt)
    &&& forall|d: CalDate|
        #![trigger compact_date_text(d)]
        d.is_valid() && four_digit_year(d) && starts_with_letter(cut_at(s, value_offset(property)))
            && cut_at(s, date_value_offset(property)) == compact_date_text(d) ==> r == Some(
            spec_at_midnight(d),
        )
}

/// Cuts the trimmed `s` at byte offset `k`.
fn cut_trimmed<'a>(s: &'a str, k: usize) -> (r: &'a str)
    requires
        can_cut_at(s@, k as int),
    ensures
        r@ == cut_at(s@, k as int),
{
    let t = trim_str(s);
    assert(t.spec_bytes() == trimmed_bytes(s@));
    let (_, rest) = t.split_at(k);
    assert(decode_utf8(encode_utf8(rest@)) == rest@);
    rest
}

/// The value of a property line `NAME:value`: the trimmed line after the name and
/// one more byte. The line must be at least that long and the cut must fall between
/// characters.
pub fn parse_property<'a>(s: &'a str, property: &str) -> (r: &'a str)
    requires
        can_cut_at(s@, value_offset(property@)),
        value_offset(property@) <= usize::MAX,
    ensures
        r@ == cut_at(s@, value_offset(property@)),
{
    assert(property.spec_bytes().len() == name_len(property@));
    let k = property.len() + 1;
    cut_trimmed(s, k)
}

/// The value of a date-only property line `NAME;VALUE=DATE:value`: the trimmed line
/// after the name and twelve more bytes.
pub fn parse_property_date_only<'a>(s: &'a str, property: &str) -> (r: &'a str)
    requires
        can_cut_at(s@, date_value_offset(property@)),
        date_value_offset(property@) <= usize::MAX,
    ensures
        r@ == cut_at(s@, date_value_offset(property@)),
{
    assert(property.spec_bytes().len() == name_len(property@));
    let k = property.len() + DATE_PARAM_LEN;
    cut_trimmed(s, k)
}

/// Reads the date and time out of a property line: first as `NAME:YYYYMMDDTHHMMSS`,
/// then as `NAME;VALUE=DATE:YYYYMMDD` at midnight; `None` when neither parses.
pub fn parse_property_to_ndt(s: &str, property: &str) -> (r: Option<DateTimeParts>)
    requires
        property_date_time_defined(s@, property@),
        date_value_offset(property@) <= usize::MAX,
    ensures
        r == property_date_time(s@, property@),
        r matches Some(dt) ==> dt.is_valid(),
        reads_back(s@, property@, r),
{
    let first = parse_property(s, property);
    match parse_date_time_text(first, "%Y%m%dT%H%M%S") {
        Some(dt) => Some(dt),
        None => {
            let second = parse_property_date_only(s, property);
            match parse_date_text(second, "%Y%m%d") {
                Some(d) => Some(at_midnight(d)),
                None => None,
            }
        },
    }
}

/// Whether byte offset `k` is a valid cut of the trimmed `s`.
fn can_cut_trimmed(s: &str, k: usize) -> (r: bool)
    ensures
        r == can_cut_at(s@, k as int),
{
    let t = trim_str(s);
    assert(t.spec_bytes() == trimmed_bytes(s@));
    t.is_char_boundary(k)
}

/// [`parse_property`] on every line: `None` where the cut would fall outside the line
/// or inside a character.
pub fn checked_parse_property<'a>(s: &'a str, property: &str) -> (r: Option<&'a str>)
    requires
        value_offset(property@) <= usize::MAX,
    ensures
        r is Some <==> can_cut_at(s@, value_offset(property@)),
        r matches Some(v) ==> v@ == cut_at(s@, value_offset(property@)),
{
    assert(property.spec_bytes().len() == name_len(property@));
    if can_cut_trimmed(s, property.len() + 1) {
        Some(parse_property(s, property))
    } else {
        None
    }
}

/// [`parse_property_to_ndt`] on every line: `None` where a cut would fall outside the
/// line or inside a character, otherwise `Some` of what that function returns.
pub fn checked_parse_property_to_ndt(s: &str, property: &str) -> (r: Option<Option<DateTimeParts>>)
    requires
        date_value_offset(property@) <= usize::MAX,
    ensures
        r is Some <==> property_date_time_defined(s@, property@),
        r matches Some(v) ==> v == property_date_time(s@, property@) && reads_back(s@, property@, v),
{
    assert(property.spec_bytes().len() == name_len(property@));
    let n = property.len();
    if !can_cut_trimmed(s, n + 1) {
        return None;
    }
    let first = parse_property(s, property);
    match parse_date_time_text(first, "%Y%m%dT%H%M%S") {
        Some(dt) => Some(Some(dt)),
        None => {
            if !can_cut_trimmed(s, n + DATE_PARAM_LEN) {
                return None;
            }
            Some(parse_property_to_ndt(s, property))
        },
    }
}

} // verus!
