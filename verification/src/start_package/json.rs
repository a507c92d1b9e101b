//! What this crate takes from `serde_json`, and what it assumes of it.
//!
//! Nothing in this file is proved. Each function here calls into `serde_json`
//! and does nothing else, and its contract says what the verified code relies
//! on. The three functions without a body give names to what `serde_json`
//! computes; nothing is assumed of them beyond what the contracts here say.

use vstd::prelude::*;

verus! {

/// `serde_json::Value`: a parsed document. Verified code hands it on and
/// sees nothing of what is inside.
#[verifier::external_type_specification]
#[verifier::external_body]
pub struct ExJsonValue(serde_json::Value);

/// `serde_json::Error`: why a document did not parse. Verified code only
/// tells it from success.
#[verifier::external_type_specification]
#[verifier::external_body]
pub struct ExJsonError(serde_json::Error);

/// The JSON text of a string: the text in quotes, with the characters escaped
/// that JSON does not take as they are.
pub uninterp spec fn json_string_text(text: Seq<char>) -> Seq<char>;

/// The members of a JSON object whose values are strings, each under its key.
/// A value that is no object has none.
pub uninterp spec fn text_members(value: serde_json::Value) -> Map<Seq<char>, Seq<char>>;

/// What a document holds: `None` where the bytes are not one JSON value, else
/// the text members of that value.
pub uninterp spec fn document_text_members(document: Seq<u8>) -> Option<
    Map<Seq<char>, Seq<char>>,
>;

/// Writes `text` as a JSON string.
///
/// Makes a `serde_json::Value` of the text with `Value::from` and writes it
/// with `to_string`, which goes by the value's `Display`. Assumed: what is
/// written depends on the text alone.
#[verifier::external_body]
pub(crate) fn json_string(text: &str) -> (json: String)
    ensures
        json@ == json_string_text(text@),
{
    serde_json::Value::from(text).to_string()
}

/// Parses a document.
///
/// Calls `serde_json::from_slice` for a `serde_json::Value`. Assumed: whether
/// the bytes parse, and which text members the value then has, depends on
/// the bytes alone.
#[verifier::external_body]
pub(crate) fn parse_document(document: &[u8]) -> (parsed: Result<
    serde_json::Value,
    serde_json::Error,
>)
    ensures
        match parsed {
            Ok(value) => document_text_members(document@) == Some(text_members(value)),
            Err(_) => document_text_members(document@) is None,
        },
{
    serde_json::from_slice::<serde_json::Value>(document)
}

/// The string under `key` in `value`.
///
/// Indexes the value by the key, which gives null where the value is no
/// object or has no such key, and calls `Value::as_str` on what is there.
/// Assumed: the result is the text member under the key, and `None` where
/// the value has no text member there.
#[verifier::external_body]
pub(crate) fn text_member<'a>(value: &'a serde_json::Value, key: &str) -> (member: Option<&'a str>)
    ensures
        match member {
            Some(text) => text_members(*value).contains_key(key@) && text_members(*value)[key@]
                == text@,
            None => !text_members(*value).contains_key(key@),
        },
{
    value[key].as_str()
}

} // verus!
