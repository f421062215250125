//! The unified error taxonomy.
//!
//! Every fallible operation of the backend contract reports failures as a
//! [`ServerError`]: a classification of where the fault originated
//! ([`ErrorLayer`]) together with a durability class (sticky vs. transient)
//! or the marker that the operation is not implemented by the backend
//! variant at hand.

use vstd::prelude::*;
use vstd::string::*;

verus! {

/// Where an error seems to originate: in the request, the configuration,
/// the server logic, or the indexed data.
#[derive(Clone, Copy, Debug, PartialEq, Eq, Structural)]
pub enum ErrorLayer {
    /// The request itself has structural issues, like a malformed search
    /// pattern.  This is not for search misses (those are part of a normal
    /// success payload) but for input that makes it impossible to produce a
    /// hit-or-miss answer at all.
    BadInput,
    /// The problem seems to involve configuration data.
    ConfigLayer,
    /// The error seems to involve server logic, so it may or may not be an
    /// issue with the underlying data.
    ServerLayer,
    /// The error seems to be related to the indexed data rather than the
    /// server, like data that was never indexed.
    DataLayer,
    /// A data structure did not behave like it is supposed to; reported
    /// instead of aborting.
    RuntimeInvariantViolation,
    /// It is not clear whether this was a server issue or a data issue.
    UnknownLayer,
}

/// Details carried by a [`ServerError`] for investigation purposes.
#[derive(Debug)]
pub struct ErrorDetails {
    /// Attempts to distinguish failures due to server bugs from failures
    /// due to indexing bugs.
    pub layer: ErrorLayer,
    /// Stringified version of the lower-level error.
    pub message: String,
}

/// The single failure type of the backend contract: does a retry make
/// sense or not?
#[derive(Debug)]
pub enum ServerError {
    /// An error that will persist for at least this index, like missing or
    /// malformed indexed data.
    StickyProblem(ErrorDetails),
    /// An error that might go away if retried later, like an upstream
    /// timeout.
    TransientProblem(ErrorDetails),
    /// The operation is not implemented by this backend variant.
    Unsupported,
}

/// Holds when `e` is a sticky problem classified at `layer`.
pub open spec fn sticky_at(e: ServerError, layer: ErrorLayer) -> bool {
    &&& e is StickyProblem
    &&& e->StickyProblem_0.layer == layer
}

#[verifier::external_type_specification]
#[verifier::external_body]
pub struct ExJoinError(tokio::task::JoinError);

#[verifier::external_type_specification]
#[verifier::external_body]
pub struct ExLiquidError(liquid::Error);

/// The Display rendering of a task-join failure: a function of the error
/// value alone.
pub uninterp spec fn join_error_text(e: tokio::task::JoinError) -> Seq<char>;

/// The Display rendering of a template error: a function of the error
/// value alone.
pub uninterp spec fn liquid_error_text(e: liquid::Error) -> Seq<char>;

/// Relies on tokio::task::JoinError's Display rendering: the
/// human-readable cause text, a function of the error value alone.
#[verifier::external_body]
fn join_error_message(e: &tokio::task::JoinError) -> (r: String)
    ensures
        r@ == join_error_text(*e),
{
    format!("{}", e)
}

/// Relies on liquid::Error's Display rendering: the human-readable cause
/// text, a function of the error value alone.
#[verifier::external_body]
fn liquid_error_message(e: &liquid::Error) -> (r: String)
    ensures
        r@ == liquid_error_text(*e),
{
    format!("{}", e)
}

impl ServerError {
    /// A malformed JSON payload is the indexed data's fault and will not
    /// mend itself: sticky, data layer, carrying the stringified
    /// lower-level error.
    pub fn from_json_error(err: serde_json::Error) -> (r: ServerError)
        ensures
            sticky_at(r, ErrorLayer::DataLayer),
            r->StickyProblem_0.message@ == crate::json::json_error_text(err),
    {
        ServerError::StickyProblem(
            ErrorDetails {
                layer: ErrorLayer::DataLayer,
                message: crate::json::json_error_message(&err),
            },
        )
    }

    /// An invalid regular expression reaching this layer comes from user
    /// input, and the same input will fail again: sticky, bad input,
    /// carrying the stringified lower-level error.
    pub fn from_regex_error(err: regex::Error) -> (r: ServerError)
        ensures
            sticky_at(r, ErrorLayer::BadInput),
            r->StickyProblem_0.message@ == "bad regexp: "@ + crate::regexp::regex_error_text(err),
    {
        let mut message = "bad regexp: ".to_owned();
        let rendered = crate::regexp::regex_error_message(&err);
        message.append(rendered.as_str());
        ServerError::StickyProblem(ErrorDetails { layer: ErrorLayer::BadInput, message })
    }

    /// A concurrently scheduled unit of work failing unexpectedly is a bug
    /// manifesting, not a condition a retry would cure: sticky, runtime
    /// invariant violation, carrying the stringified lower-level error.
    pub fn from_join_error(err: tokio::task::JoinError) -> (r: ServerError)
        ensures
            sticky_at(r, ErrorLayer::RuntimeInvariantViolation),
            r->StickyProblem_0.message@ == "task panicked?: "@ + join_error_text(err),
    {
        let mut message = "task panicked?: ".to_owned();
        let rendered = join_error_message(&err);
        message.append(rendered.as_str());
        ServerError::StickyProblem(
            ErrorDetails { layer: ErrorLayer::RuntimeInvariantViolation, message },
        )
    }

    /// A template-rendering failure points at a bad configured template:
    /// sticky, configuration layer, carrying the stringified lower-level
    /// error.
    pub fn from_template_error(err: liquid::Error) -> (r: ServerError)
        ensures
            sticky_at(r, ErrorLayer::ConfigLayer),
            r->StickyProblem_0.message@ == "Liquid error: "@ + liquid_error_text(err),
    {
        let mut message = "Liquid error: ".to_owned();
        let rendered = liquid_error_message(&err);
        message.append(rendered.as_str());
        ServerError::StickyProblem(ErrorDetails { layer: ErrorLayer::ConfigLayer, message })
    }
}

/// Decodes a JSON text, reporting a malformed payload as the classified
/// error every data-decoding path surfaces.
pub fn decode_json(s: &str) -> (r: Result<serde_json::Value, ServerError>)
    ensures
        r is Ok <==> crate::json::json_decodes(s@),
        r matches Ok(v) ==> v == crate::json::json_value_of(s@),
        r matches Err(e) ==> sticky_at(e, ErrorLayer::DataLayer)
            && e->StickyProblem_0.message@ == crate::json::json_error_text(
            crate::json::json_error_of(s@),
        ),
{
    match crate::json::parse_json(s) {
        Ok(v) => Ok(v),
        Err(e) => Err(ServerError::from_json_error(e)),
    }
}

} // verus!
