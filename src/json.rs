//! JSON texts read through serde_json: reply headers and reply bodies.

use vstd::prelude::*;
use vstd::string::*;
use crate::text::{trim, trimmed, parse_i32, i32_of_text};

verus! {

#[verifier::external_type_specification]
#[verifier::external_body]
pub struct ExJsonValue(serde_json::Value);

#[verifier::external_type_specification]
#[verifier::external_body]
pub struct ExJsonError(serde_json::Error);

/// Whether serde_json accepts `text` as one JSON document.
pub uninterp spec fn json_parses(text: Seq<char>) -> bool;

/// Relies on serde_json::from_str into a `Value`: succeeds exactly on JSON
/// text, which depends on the text alone.
#[verifier::external_body]
fn parse_json(text: &str) -> (r: Result<serde_json::Value, serde_json::Error>)
    ensures
        r.is_ok() == json_parses(text@),
{
    serde_json::from_str(text)
}

/// A JSON value as far as a status field is read: an integer, a string, or
/// something else.
#[derive(Debug, Clone, PartialEq, Eq)]
pub enum JsonScalar {
    /// A number; `None` when it is not an integer that fits in `i64`.
    Number(Option<i64>),
    /// A string.
    Text(String),
    /// Any other value.
    Other,
}

/// The member `key` of the JSON object that `text` holds, as serde_json reads
/// it; `None` where `text` is not JSON, not an object, or has no such member.
pub uninterp spec fn json_member_of(text: Seq<char>, key: Seq<char>) -> Option<JsonScalar>;

/// Relies on serde_json::from_str into a `Value`, `Value::get` for the member
/// (`None` for a missing key or a value that is not an object) and
/// `Number::as_i64` for a number member; a string member is moved over as it is.
#[verifier::external_body]
fn json_member_scalar(text: &str, key: &str) -> (r: Option<JsonScalar>)
    ensures
        r == json_member_of(text@, key@),
        !json_parses(text@) ==> r is None,
{
    let value: serde_json::Value = serde_json::from_str(text).ok()?;
    match value.get(key)? {
        serde_json::Value::Number(n) => Some(JsonScalar::Number(n.as_i64())),
        serde_json::Value::String(s) => Some(JsonScalar::Text(s.clone())),
        _ => Some(JsonScalar::Other),
    }
}

/// The status that a status field holds: an integer in range, or a string
/// that writes one.
pub open spec fn status_of_scalar(v: JsonScalar) -> Option<i32> {
    match v {
        JsonScalar::Number(Some(n)) => if i32::MIN <= n && n <= i32::MAX {
            Some(n as i32)
        } else {
            None
        },
        JsonScalar::Number(None) => None,
        JsonScalar::Text(s) => i32_of_text(s@),
        JsonScalar::Other => None,
    }
}

/// Reads a status from the value of a status field.
pub fn status_from_scalar(v: &JsonScalar) -> (r: Option<i32>)
    ensures
        r == status_of_scalar(*v),
{
    match v {
        JsonScalar::Number(Some(n)) => {
            if i32::MIN as i64 <= *n && *n <= i32::MAX as i64 {
                Some(*n as i32)
            } else {
                None
            }
        },
        JsonScalar::Number(None) => None,
        JsonScalar::Text(s) => parse_i32(s.as_str()),
        JsonScalar::Other => None,
    }
}

/// The status that a reply header carries: its `status` member, read as an
/// integer in range or a string that writes one.
pub open spec fn header_status(raw_json: Seq<char>) -> Option<i32> {
    match json_member_of(trimmed(raw_json), "status"@) {
        Some(v) => status_of_scalar(v),
        None => None,
    }
}

/// Reads the `status` member of a reply header. `None` when the header is not
/// JSON, is not an object, has no `status` member, or that member holds no
/// `i32`.
pub fn parse_status_from_header(raw_json: &str) -> (r: Option<i32>)
    ensures
        r == header_status(raw_json@),
        !json_parses(trimmed(raw_json@)) ==> r is None,
{
    let t = trim(raw_json);
    match json_member_scalar(t, "status") {
        Some(member) => status_from_scalar(&member),
        None => None,
    }
}

/// The text that a reply body is decoded from: the trimmed body, or an empty
/// object where the body is blank.
pub open spec fn body_document(body: Seq<char>) -> Seq<char> {
    if trimmed(body).len() == 0 {
        "{}"@
    } else {
        trimmed(body)
    }
}

/// Decodes a reply body; a blank body reads as an empty object.
pub fn decode_response_body(body: &str) -> (r: Result<serde_json::Value, serde_json::Error>)
    ensures
        r.is_ok() == json_parses(body_document(body@)),
{
    let t = trim(body);
    if t.is_empty() {
        return parse_json("{}");
    }
    parse_json(t)
}

} // verus!
