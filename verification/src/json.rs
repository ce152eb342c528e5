//! The JSON primitives that the session layer relies on.
//!
//! Reading and escaping JSON is left to `serde_json`; the items in the first
//! half of this file state what is taken on trust about it. Everything built
//! on top of them is verified.

use crate::error::SessionError;
use vstd::prelude::*;

verus! {

/// A parsed JSON document, opaque to the verifier.
#[verifier::external_type_specification]
#[verifier::external_body]
pub struct ExValue(serde_json::Value);

/// The error that `serde_json` reports, opaque to the verifier.
#[verifier::external_type_specification]
#[verifier::external_body]
pub struct ExJsonError(serde_json::Error);

/// The members of the JSON object `value` whose value is a JSON string, by
/// key. Empty when `value` is not an object.
pub uninterp spec fn json_strings(value: serde_json::Value) -> Map<Seq<char>, Seq<char>>;

/// What `serde_json::from_str` makes of `text`: `None` when `text` is not one
/// JSON document, otherwise the string members of the document.
pub uninterp spec fn json_document(text: Seq<char>) -> Option<Map<Seq<char>, Seq<char>>>;

/// The JSON string literal, quotes and escapes included, that
/// `serde_json::to_string` writes for the string `text`.
pub uninterp spec fn json_quoted(text: Seq<char>) -> Seq<char>;

/// Calls `serde_json::from_str` for a `Value`. Parsing depends on the text
/// alone, so the outcome is named by `json_document`; on success the string
/// members of the returned value are those that `json_document` names.
#[verifier::external_body]
pub(crate) fn parse(text: &str) -> (parsed: Result<serde_json::Value, serde_json::Error>)
    ensures
        parsed is Ok <==> json_document(text@) is Some,
        parsed matches Ok(value) ==> json_strings(value) == json_document(text@).unwrap(),
{
    serde_json::from_str::<serde_json::Value>(text)
}

/// Calls `Value::get` with a string key and `Value::as_str` on what it finds.
/// `get` yields a member only of an object that has the key, and `as_str`
/// yields text only for a JSON string, so the result is the entry of
/// `json_strings` under `key`, if there is one.
#[verifier::external_body]
pub(crate) fn string_member(value: &serde_json::Value, key: &str) -> (member: Option<String>)
    ensures
        member is Some <==> json_strings(*value).contains_key(key@),
        member matches Some(text) ==> text@ == json_strings(*value)[key@],
{
    value.get(key).and_then(serde_json::Value::as_str).map(String::from)
}

/// Calls `serde_json::to_string` on a string slice. Writing a string into a
/// byte vector cannot fail, so the call succeeds; the literal it writes is
/// named by `json_quoted`.
#[verifier::external_body]
pub(crate) fn quote(text: &str) -> (quoted: Result<String, serde_json::Error>)
    ensures
        quoted is Ok,
        quoted matches Ok(literal) ==> literal@ == json_quoted(text@),
{
    serde_json::to_string(text)
}

/// The string member `key` of the document `text`, as far as there is one.
pub open spec fn document_string(text: Seq<char>, key: Seq<char>) -> Option<Seq<char>> {
    match json_document(text) {
        Some(members) => if members.contains_key(key) {
            Some(members[key])
        } else {
            None
        },
        None => None,
    }
}

/// What is made of a member that was looked for in a document: the member
/// where one was found, a `DeserializationError` where none was.
pub fn required(found: Option<String>) -> (member: Result<String, SessionError>)
    ensures
        match found {
            Some(text) => member matches Ok(s) && s == text,
            None => member == Err::<String, SessionError>(SessionError::DeserializationError),
        },
{
    match found {
        Some(text) => Ok(text),
        None => Err(SessionError::DeserializationError),
    }
}

/// Reads the string member `key` out of the JSON document `text`.
///
/// Fails with `DeserializationError` when `text` is no JSON document, when
/// the document is no object, or when it has no string under `key`.
pub fn read_string_member(text: &str, key: &str) -> (member: Result<String, SessionError>)
    ensures
        match document_string(text@, key@) {
            Some(found) => member matches Ok(s) && s@ == found,
            None => member == Err::<String, SessionError>(SessionError::DeserializationError),
        },
{
    match parse(text) {
        Ok(value) => required(string_member(&value, key)),
        Err(_) => required(None),
    }
}

/// Writes `text` as a JSON string literal.
pub(crate) fn literal_of(text: &str) -> (literal: String)
    ensures
        literal@ == json_quoted(text@),
{
    match quote(text) {
        Ok(literal) => literal,
        Err(_) => String::new(),
    }
}

} // verus!
