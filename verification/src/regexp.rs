//! Trusted boundary to the regex crate.
//!
//! Whether a pattern compiles, whether it matches a haystack, and where
//! its leftmost match lies are all functions of the pattern and haystack
//! texts alone, so they are given names that search contracts speak of.

use vstd::prelude::*;

verus! {

#[verifier::external_type_specification]
#[verifier::external_body]
pub struct ExRegexError(regex::Error);

/// Whether `pattern` compiles as a regular expression.
pub uninterp spec fn regex_ok(pattern: Seq<char>) -> bool;

/// Whether the regular expression `pattern` matches anywhere in `text`.
pub uninterp spec fn regex_matched(pattern: Seq<char>, text: Seq<char>) -> bool;

/// Character span (0-based, half-open) of the leftmost match of
/// `pattern` in `text`.
pub uninterp spec fn regex_leftmost(pattern: Seq<char>, text: Seq<char>) -> (int, int);

/// The Display rendering of a regex error: a function of the error value
/// alone.
pub uninterp spec fn regex_error_text(e: regex::Error) -> Seq<char>;

/// Relies on regex::Regex::new: whether a pattern compiles depends on the
/// pattern text alone, and the empty pattern compiles.
#[verifier::external_body]
pub(crate) fn regex_compile_check(pattern: &str) -> (r: Result<(), regex::Error>)
    ensures
        r is Ok <==> regex_ok(pattern@),
        pattern@.len() == 0 ==> r is Ok,
{
    match regex::Regex::new(pattern) {
        Ok(_) => Ok(()),
        Err(e) => Err(e),
    }
}

/// Relies on regex::Regex::new and regex::Regex::is_match: whether a
/// pattern matches is a function of the pattern and the haystack, and the
/// empty pattern matches every haystack.
#[verifier::external_body]
pub(crate) fn regex_is_match(pattern: &str, text: &str) -> (r: bool)
    requires
        regex_ok(pattern@),
    ensures
        r == regex_matched(pattern@, text@),
        pattern@.len() == 0 ==> r,
{
    regex::Regex::new(pattern).unwrap().is_match(text)
}

/// Relies on regex::Regex::new and regex::Regex::find: the leftmost
/// match is a function of the pattern and the haystack; a match exists
/// exactly when the pattern matches.  The byte offsets that `find`
/// reports are converted to character indices of the haystack, which lie
/// within its character length.
#[verifier::external_body]
pub(crate) fn regex_find_span(pattern: &str, text: &str) -> (r: Option<(usize, usize)>)
    requires
        regex_ok(pattern@),
    ensures
        r is Some <==> regex_matched(pattern@, text@),
        r matches Some(sp) ==> {
            &&& (sp.0 as int, sp.1 as int) == regex_leftmost(pattern@, text@)
            &&& sp.0 <= sp.1
            &&& sp.1 <= text@.len()
        },
{
    match regex::Regex::new(pattern).unwrap().find(text) {
        Some(m) => Some(
            (text[..m.start()].chars().count(), text[..m.end()].chars().count()),
        ),
        None => None,
    }
}

/// Relies on regex::Error's Display rendering: the human-readable cause
/// text, a function of the error value alone.
#[verifier::external_body]
pub(crate) fn regex_error_message(e: &regex::Error) -> (r: String)
    ensures
        r@ == regex_error_text(*e),
{
    format!("{}", e)
}

} // verus!
