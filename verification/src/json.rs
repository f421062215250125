//! Trusted boundary to serde_json.
//!
//! JSON decoding is deterministic in the input text, so its outcome and
//! its parsed value are given names that contracts elsewhere speak of;
//! nothing in this crate restates the JSON grammar.

use vstd::prelude::*;

verus! {

#[verifier::external_type_specification]
#[verifier::external_body]
pub struct ExValue(serde_json::Value);

#[verifier::external_type_specification]
#[verifier::external_body]
pub struct ExJsonError(serde_json::Error);

/// Whether serde_json parses `s` as a JSON document.
pub uninterp spec fn json_decodes(s: Seq<char>) -> bool;

/// The value that serde_json parses `s` to, when `s` decodes.
pub uninterp spec fn json_value_of(s: Seq<char>) -> serde_json::Value;

/// The parse error serde_json reports for `s`, when `s` does not decode.
pub uninterp spec fn json_error_of(s: Seq<char>) -> serde_json::Error;

/// The Display rendering of a serde_json error: a function of the error
/// value alone.
pub uninterp spec fn json_error_text(e: serde_json::Error) -> Seq<char>;

/// Relies on serde_json::from_str::<Value>: whether a text parses, what
/// it parses to, and which error it fails with are functions of the text
/// alone.
#[verifier::external_body]
pub(crate) fn parse_json(s: &str) -> (r: Result<serde_json::Value, serde_json::Error>)
    ensures
        r is Ok <==> json_decodes(s@),
        r matches Ok(v) ==> v == json_value_of(s@),
        r matches Err(e) ==> e == json_error_of(s@),
{
    serde_json::from_str::<serde_json::Value>(s)
}

/// Relies on serde_json::Value::Null being exactly the value that the
/// text `null` parses to.
#[verifier::external_body]
pub(crate) fn json_null() -> (r: serde_json::Value)
    ensures
        r == json_value_of("null"@),
{
    serde_json::Value::Null
}

/// Relies on serde_json::Error's Display rendering: the human-readable
/// cause text, a function of the error value alone.
#[verifier::external_body]
pub(crate) fn json_error_message(e: &serde_json::Error) -> (r: String)
    ensures
        r@ == json_error_text(*e),
{
    format!("{}", e)
}

} // verus!
