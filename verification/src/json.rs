//! Reading the error field of a JSON body.
//!
//! JSON text is parsed by `serde_json`. A parsed document stays opaque here:
//! the three functions at the top of this file hand the work to that crate,
//! and their results are named rather than described.

use vstd::prelude::*;
use vstd::string::*;

verus! {

/// The document that `serde_json::from_str` reads from a text, or `None`
/// where it rejects the text.
pub uninterp spec fn json_document(text: Seq<char>) -> Option<serde_json::Value>;

/// The member that `serde_json::Value::get` finds under a key, or `None`
/// where the value is no object or has no such key.
pub uninterp spec fn json_member(value: serde_json::Value, key: Seq<char>) -> Option<
    serde_json::Value,
>;

/// The text that `serde_json::Value::as_str` gives for a JSON string, or
/// `None` for a value of any other kind.
pub uninterp spec fn json_string(value: serde_json::Value) -> Option<Seq<char>>;

/// Calls `serde_json::from_str` for a `serde_json::Value`. Trusted: the
/// result is the named document of the text; the parser's error is dropped.
#[verifier::external_body]
fn parse_document(text: &str) -> (r: Option<serde_json::Value>)
    ensures
        r == json_document(text@),
{
    serde_json::from_str::<serde_json::Value>(text).ok()
}

/// Calls `serde_json::Value::get` with a string key. Trusted: the result is
/// the named member of the value.
#[verifier::external_body]
fn member<'a>(value: &'a serde_json::Value, key: &str) -> (r: Option<&'a serde_json::Value>)
    ensures
        r.is_some() == json_member(*value, key@).is_some(),
        r matches Some(m) ==> json_member(*value, key@) == Some(*m),
{
    value.get(key)
}

/// Calls `serde_json::Value::as_str`. Trusted: the result is the named text
/// of the value.
#[verifier::external_body]
fn string_of<'a>(value: &'a serde_json::Value) -> (r: Option<&'a str>)
    ensures
        r.is_some() == json_string(*value).is_some(),
        r matches Some(s) ==> json_string(*value) == Some(s@),
{
    value.as_str()
}

/// The text of a top-level string member of a JSON object: present where
/// the body is JSON, is an object, has the member, and the member is a
/// string.
pub open spec fn string_member_of(body: Seq<char>, key: Seq<char>) -> Option<Seq<char>> {
    match json_document(body) {
        Some(document) => match json_member(document, key) {
            Some(found) => json_string(found),
            None => None,
        },
        None => None,
    }
}

/// The message that an error body carries in its `error` member, if any.
pub open spec fn error_message_of(body: Seq<char>) -> Option<Seq<char>> {
    string_member_of(body, "error"@)
}

/// Reads the `error` member of a JSON body.
pub fn extract_error_message(body: &str) -> (r: Option<String>)
    ensures
        r.is_some() == error_message_of(body@).is_some(),
        r matches Some(m) ==> error_message_of(body@) == Some(m@),
{
    match parse_document(body) {
        Some(document) => match member(&document, "error") {
            Some(found) => match string_of(found) {
                Some(text) => Some(String::from_str(text)),
                None => None,
            },
            None => None,
        },
        None => None,
    }
}

} // verus!
