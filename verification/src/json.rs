//! What the router has from `serde_json`: reading a request body as a list
//! of values, and writing a string as JSON text.
//!
//! Nothing here is proved. The contracts say what the verified code takes
//! for granted: that each of the two calls gives the same result for the
//! same input. What the result is, `serde_json` decides.

use vstd::prelude::*;

verus! {

/// A JSON value. The router hands values on and never looks inside one.
#[verifier::external_type_specification]
#[verifier::external_body]
pub struct ExValue(serde_json::Value);

/// What `serde_json::from_slice` makes of `body` when a list of values is
/// asked for: the values in their order, or the text of its error.
pub uninterp spec fn parsed_array(body: Seq<u8>) -> Result<Seq<serde_json::Value>, Seq<char>>;

/// The JSON text that `serde_json::to_string` writes for the string `text`.
pub uninterp spec fn string_literal(text: Seq<char>) -> Seq<char>;

/// The outcome of reading a body, as specifications see it.
pub open spec fn parse_view(parsed: Result<Vec<serde_json::Value>, String>) -> Result<
    Seq<serde_json::Value>,
    Seq<char>,
> {
    match parsed {
        Ok(values) => Ok(values@),
        Err(detail) => Err(detail@),
    }
}

/// Calls `serde_json::from_slice` for a `Vec` of values. The contract names
/// the outcome `parsed_array(body)` and says no more of it: the same bytes
/// give the same values, or the same error text.
#[verifier::external_body]
pub(crate) fn parse_array(body: &[u8]) -> (parsed: Result<Vec<serde_json::Value>, String>)
    ensures
        parse_view(parsed) == parsed_array(body@),
{
    match serde_json::from_slice::<Vec<serde_json::Value>>(body) {
        Ok(values) => Ok(values),
        Err(error) => Err(error.to_string()),
    }
}

/// Calls `serde_json::to_string` on a string. The contract names the text
/// that comes back `string_literal(text)` and says no more of it.
///
/// `serde_json` fails where a type's own way of being written fails, or
/// where a map has keys that are no strings. A string is neither, so the
/// empty text that stands in for a failure never comes back.
#[verifier::external_body]
pub(crate) fn write_string(text: &str) -> (written: String)
    ensures
        written@ == string_literal(text@),
{
    serde_json::to_string(text).unwrap_or_default()
}

} // verus!
