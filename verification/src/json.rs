//! JSON text, read with `serde_json`.

use vstd::prelude::*;

use crate::error::{err_view, PyErrorKind, SdkError};

verus! {

/// A JSON value as `serde_json` holds it; the library carries it through and
/// never looks inside.
#[verifier::external_type_specification]
#[verifier::external_body]
pub struct ExJsonValue(serde_json::Value);

/// Whether `text` is a JSON document that `serde_json::from_str` accepts as a
/// `serde_json::Value`.
pub uninterp spec fn json_parses(text: Seq<char>) -> bool;

/// The message of the error `serde_json::from_str` gives for `text` when it
/// is not such a document (the error's `Display`, with line and column).
pub uninterp spec fn json_parse_error(text: Seq<char>) -> Seq<char>;

/// Calls `serde_json::from_str::<serde_json::Value>` on `text`, turning its
/// error into the error's `Display` text.
///
/// Claimed: the call succeeds exactly when `json_parses(text)`, and when it
/// fails the message is `json_parse_error(text)`; both depend on the text
/// alone. Nothing is claimed of the parsed value, which the library only
/// passes on.
#[verifier::external_body]
fn parse_json_text(text: &str) -> (r: Result<serde_json::Value, String>)
    ensures
        r is Ok <==> json_parses(text@),
        r matches Err(m) ==> m@ == json_parse_error(text@),
{
    match serde_json::from_str::<serde_json::Value>(text) {
        Ok(v) => Ok(v),
        Err(e) => Err(e.to_string()),
    }
}

/// Parses JSON text into a value; text that is not JSON is a `ValueError`
/// carrying the parser's message.
pub fn json_text_value(text: &str) -> (r: Result<serde_json::Value, SdkError>)
    ensures
        r is Ok <==> json_parses(text@),
        r matches Err(e) ==> e@ == err_view(PyErrorKind::ValueError, json_parse_error(text@)),
{
    match parse_json_text(text) {
        Ok(v) => Ok(v),
        Err(m) => Err(SdkError::value_error(m)),
    }
}

} // verus!
