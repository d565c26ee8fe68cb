//! The two regular-expression operations that the library uses, through the
//! `regex` crate.
use regex::Regex;
use vstd::prelude::*;

verus! {

/// Whether `Regex::new(pattern)` succeeds.
pub uninterp spec fn regex_compiles(pattern: Seq<char>) -> bool;

/// What `Regex::new(pattern)?.replace_all(text, rep)` gives.
pub uninterp spec fn regex_replace_all(pattern: Seq<char>, text: Seq<char>, rep: Seq<char>) -> Seq<char>;

/// For the first match of `pattern` in `text` (`None` where there is none), the text
/// of the capture groups named `first` and `second` (`None` for a group that took
/// no part in the match).
pub uninterp spec fn regex_named_captures(
    pattern: Seq<char>,
    text: Seq<char>,
    first: Seq<char>,
    second: Seq<char>,
) -> Option<(Option<Seq<char>>, Option<Seq<char>>)>;

pub open spec fn opt_string_view(o: Option<String>) -> Option<Seq<char>> {
    match o {
        Some(s) => Some(s@),
        None => None,
    }
}

pub open spec fn captures_view(c: Option<(Option<String>, Option<String>)>) -> Option<
    (Option<Seq<char>>, Option<Seq<char>>),
> {
    match c {
        Some((a, b)) => Some((opt_string_view(a), opt_string_view(b))),
        None => None,
    }
}

/// `Regex::new(pattern)` then `replace_all(text, rep)`; `None` when the pattern does
/// not compile. The replaced text is named, not stated: the regex engine is pages long.
#[verifier::external_body]
pub(crate) fn replace_all_matches(pattern: &str, text: &str, rep: &str) -> (r: Option<String>)
    ensures
        r is Some <==> regex_compiles(pattern@),
        r matches Some(out) ==> out@ == regex_replace_all(pattern@, text@, rep@),
{
    match Regex::new(pattern) {
        Ok(re) => Some(re.replace_all(text, rep).to_string()),
        Err(_) => None,
    }
}

/// `Regex::new(pattern)` then `captures(text)` and the groups `name(first)` and
/// `name(second)` as owned strings; `None` when the pattern does not compile.
/// The captures are named, not stated.
#[verifier::external_body]
pub(crate) fn first_named_captures(pattern: &str, text: &str, first: &str, second: &str) -> (r: Option<
    Option<(Option<String>, Option<String>)>,
>)
    ensures
        r is Some <==> regex_compiles(pattern@),
        r matches Some(c) ==> captures_view(c) == regex_named_captures(pattern@, text@, first@, second@),
{
    match Regex::new(pattern) {
        Ok(re) => match re.captures(text) {
            Some(c) => Some(Some((
                match c.name(first) { Some(m) => Some(m.as_str().to_string()), None => None },
                match c.name(second) { Some(m) => Some(m.as_str().to_string()), None => None },
            ))),
            None => Some(None),
        },
        Err(_) => None,
    }
}

} // verus!
