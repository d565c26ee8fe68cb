//! The summary of an event: its description with every date, time and
//! scheduling word removed, then trimmed.
use crate::matching::{regex_compiles, regex_replace_all, replace_all_matches};
use crate::text::{trim_str, trim_ws};
use vstd::prelude::*;

verus! {

/// How many patterns are removed from a description.
pub const SUMMARY_PATTERN_COUNT: usize = 8usize;

/// The patterns removed from a description, in the order they are applied:
/// dates, full dates, times, month dates, weekdays, relative words, connecting words
/// and hyphens.
pub open spec fn summary_patterns() -> Seq<Seq<char>> {
    seq![
        r"\d{1,2}/(\d{1,2})"@,
        r"(\d{1,2})(/)(\d{1,2})(/)(\d{4}|\d{2})"@,
        r"(?i)(^|\b)(\d{1,2}):?(\d{2})?([ap]m?)?($|\b)"@,
        r"(?i)(jan|january|feb|mar|mar|apr|may|jun|jul|aug|sep|oct|nov|dec)(r?uary|ch|il|e|y|ust|tember|ober|ember|\b)\s(?P<date>\d{1,2})?"@,
        r"(?i)(mon|tue|wed|thurs|fri|sat|sun)(r?day|r?sday|nesay|urday)?\b"@,
        r"(?i)(next|last|this)\s\w+"@,
        r"(?i)\b(at|in|on|from|next|this|last|morning|afternoon|evening|night|noon|afternoon|tomorrow)\b"@,
        r"(?i)-"@,
    ]
}

/// The pattern that removes a relative word ("next", "last", "this") together with
/// the word after it.
pub open spec fn relative_phrase_pattern() -> Seq<char> {
    r"(?i)(next|last|this)\s\w+"@
}

/// The pattern that removes connecting and scheduling words on their own.
pub open spec fn connecting_words_pattern() -> Seq<char> {
    r"(?i)\b(at|in|on|from|next|this|last|morning|afternoon|evening|night|noon|afternoon|tomorrow)\b"@
}

/// The `i`-th removal pattern.
fn summary_pattern(i: usize) -> (r: &'static str)
    requires
        i < SUMMARY_PATTERN_COUNT,
    ensures
        r@ == summary_patterns()[i as int],
{
    if i == 0 {
        r"\d{1,2}/(\d{1,2})"
    } else if i == 1 {
        r"(\d{1,2})(/)(\d{1,2})(/)(\d{4}|\d{2})"
    } else if i == 2 {
        r"(?i)(^|\b)(\d{1,2}):?(\d{2})?([ap]m?)?($|\b)"
    } else if i == 3 {
        r"(?i)(jan|january|feb|mar|mar|apr|may|jun|jul|aug|sep|oct|nov|dec)(r?uary|ch|il|e|y|ust|tember|ober|ember|\b)\s(?P<date>\d{1,2})?"
    } else if i == 4 {
        r"(?i)(mon|tue|wed|thurs|fri|sat|sun)(r?day|r?sday|nesay|urday)?\b"
    } else if i == 5 {
        r"(?i)(next|last|this)\s\w+"
    } else if i == 6 {
        r"(?i)\b(at|in|on|from|next|this|last|morning|afternoon|evening|night|noon|afternoon|tomorrow)\b"
    } else {
        r"(?i)-"
    }
}

/// `text` with every match of each of `patterns` replaced by nothing, the patterns
/// applied one after the other from the first.
pub open spec fn strip_patterns(text: Seq<char>, patterns: Seq<Seq<char>>) -> Seq<char>
    decreases patterns.len(),
{
    if patterns.len() == 0 {
        text
    } else {
        regex_replace_all(patterns.last(), strip_patterns(text, patterns.drop_last()), ""@)
    }
}

/// Every removal pattern compiles.
pub open spec fn summary_patterns_compile() -> bool {
    forall|i: int| 0 <= i < summary_patterns().len() ==> regex_compiles(#[trigger] summary_patterns()[i])
}

/// The summary of `text`: the removal patterns applied, then whitespace trimmed.
pub open spec fn summary_text(text: Seq<char>) -> Seq<char> {
    trim_ws(strip_patterns(text, summary_patterns()))
}

/// The summary of `text`, or `None` where one of the removal patterns does not compile.
pub fn summary_of(text: &str) -> (r: Option<String>)
    ensures
        r is Some <==> summary_patterns_compile(),
        r matches Some(s) ==> s@ == summary_text(text@),
{
    let mut clean_text: String = text.to_owned();
    let mut i: usize = 0;
    assert(summary_patterns().take(0) =~= Seq::<Seq<char>>::empty());
    while i < SUMMARY_PATTERN_COUNT
        invariant
            i <= SUMMARY_PATTERN_COUNT,
            summary_patterns().len() == SUMMARY_PATTERN_COUNT,
            forall|j: int| 0 <= j < i ==> regex_compiles(#[trigger] summary_patterns()[j]),
            clean_text@ == strip_patterns(text@, summary_patterns().take(i as int)),
        decreases SUMMARY_PATTERN_COUNT - i,
    {
        let pattern = summary_pattern(i);
        match replace_all_matches(pattern, clean_text.as_str(), "") {
            Some(out) => {
                assert(summary_patterns().take(i + 1).drop_last() =~= summary_patterns().take(
                    i as int,
                ));
                clean_text = out;
                i = i + 1;
            },
            None => {
                return None;
            },
        }
    }
    assert(summary_patterns().take(SUMMARY_PATTERN_COUNT as int) =~= summary_patterns());
    Some(trim_str(clean_text.as_str()).to_owned())
}

/// The summary of an event described by `text`: every date, time, weekday, month,
/// relative and connecting word and every hyphen removed, and the rest trimmed.
/// There is always one: for text that is nothing but such words it is empty.
pub fn get_summary(text: &str) -> (r: Option<String>)
    requires
        summary_patterns_compile(),
    ensures
        r matches Some(s) && s@ == summary_text(text@),
{
    summary_of(text)
}

} // verus!
