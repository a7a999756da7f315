//! The JSON values carried by function calls and function responses.
//!
//! A JSON value is opaque to this library: it is carried from the caller to
//! the request, or from the response to the caller, and never inspected.
use vstd::prelude::*;

verus! {

/// A JSON document as `serde_json` represents it; carried, never inspected.
#[verifier::external_type_specification]
#[verifier::external_body]
pub struct ExJsonValue(serde_json::Value);

/// The error `serde_json` reports for text that is not one JSON document.
#[verifier::external_type_specification]
#[verifier::external_body]
pub struct ExJsonError(serde_json::Error);

/// Gives `serde_json::Value`'s derived `Clone` a place in verified code,
/// so that the library's types that hold a JSON document can derive `Clone`.
/// Nothing is claimed of the copy.
pub assume_specification[ <serde_json::Value as Clone>::clone ](v: &serde_json::Value) -> (res: serde_json::Value);

/// What `serde_json::from_str::<serde_json::Value>` gives for a text: the
/// document it denotes, or the error it reports (its code, line and column)
/// where the text is not exactly one JSON document (syntax error, trailing
/// characters, nesting beyond its limit).
pub uninterp spec fn json_outcome(text: Seq<char>) -> Result<serde_json::Value, serde_json::Error>;

/// Calls `serde_json::from_str::<serde_json::Value>`.
///
/// Trusted: the outcome, document or error, is `json_outcome` of the text.
/// `serde_json` parses from the text alone, so the same text always gives
/// the same outcome.
#[verifier::external_body]
pub(crate) fn parse_json_document(text: &str) -> (res: Result<serde_json::Value, serde_json::Error>)
    ensures
        res == json_outcome(text@),
{
    serde_json::from_str::<serde_json::Value>(text)
}

} // verus!
