//! The JSON documents that the daemons exchange with their peers, as far as
//! the message rules read them: a text is parsed once, and members of the
//! document are then looked up by key.
//!
//! Parsing and lookup are the work of `serde_json`. The functions here hand
//! its answers on; what they state of them is believed, not proved.

use vstd::prelude::*;

verus! {

/// A parsed JSON document, or a value inside one. Nothing of its inside is
/// visible here: it is only handed from one lookup to the next.
#[verifier::external_type_specification]
#[verifier::external_body]
pub struct ExJsonValue(serde_json::Value);

/// Why a text is not a JSON document.
#[verifier::external_type_specification]
#[verifier::external_body]
pub struct ExJsonError(serde_json::Error);

/// What `serde_json::from_str` makes of a text: the document that it
/// reads, or, where it reports an error, what that error displays as.
pub uninterp spec fn json_parsed(text: Seq<char>) -> Result<serde_json::Value, Seq<char>>;

/// The document that a text holds; `None` where it is no JSON document.
pub open spec fn json_document(text: Seq<char>) -> Option<serde_json::Value> {
    match json_parsed(text) {
        Ok(document) => Some(document),
        Err(_) => None,
    }
}

/// Why a text is no JSON document, in the parser's words; empty for a
/// text that is one.
pub open spec fn json_failure(text: Seq<char>) -> Seq<char> {
    match json_parsed(text) {
        Ok(_) => Seq::<char>::empty(),
        Err(reason) => reason,
    }
}

/// The member that `serde_json::Value::get` finds under a string key;
/// `None` where the value is no object or has no such member.
pub uninterp spec fn json_member(value: serde_json::Value, key: Seq<char>) -> Option<
    serde_json::Value,
>;

/// The text that `serde_json::Value::as_str` gives for a value; `None`
/// where the value is not a JSON string.
pub uninterp spec fn json_string(value: serde_json::Value) -> Option<Seq<char>>;

/// The number that `serde_json::Value::as_u64` gives for a value; `None`
/// where the value is not an integer from 0 to `u64::MAX`.
pub uninterp spec fn json_u64(value: serde_json::Value) -> Option<u64>;

/// What an error of `serde_json` displays as.
pub uninterp spec fn json_error_text(error: serde_json::Error) -> Seq<char>;

/// Calls `serde_json::from_str` for a `Value`. The claim: the call depends
/// on the text alone, so that one text always gives the same document, or
/// always an error that reads the same.
#[verifier::external_body]
pub(crate) fn parse_document(text: &str) -> (parsed: Result<serde_json::Value, serde_json::Error>)
    ensures
        match parsed {
            Ok(value) => json_parsed(text@) == Ok::<serde_json::Value, Seq<char>>(value),
            Err(error) => json_parsed(text@) == Err::<serde_json::Value, Seq<char>>(
                json_error_text(error),
            ),
        },
{
    serde_json::from_str::<serde_json::Value>(text)
}

/// Calls `to_string` on an error of `serde_json`, which writes it out as
/// it displays. The claim: the text depends on the error alone.
#[verifier::external_body]
pub(crate) fn error_text(error: &serde_json::Error) -> (text: String)
    ensures
        text@ == json_error_text(*error),
{
    error.to_string()
}

/// Calls `serde_json::Value::get` with a string key. The claim: the call
/// depends on the value and the key alone.
#[verifier::external_body]
pub(crate) fn member<'a>(value: &'a serde_json::Value, key: &str) -> (found: Option<
    &'a serde_json::Value,
>)
    ensures
        match found {
            Some(inner) => json_member(*value, key@) == Some(*inner),
            None => json_member(*value, key@) is None,
        },
{
    value.get(key)
}

/// Calls `serde_json::Value::as_str`. The claim: the call depends on the
/// value alone.
#[verifier::external_body]
pub(crate) fn as_text<'a>(value: &'a serde_json::Value) -> (text: Option<&'a str>)
    ensures
        match text {
            Some(s) => json_string(*value) == Some(s@),
            None => json_string(*value) is None,
        },
{
    value.as_str()
}

/// Calls `serde_json::Value::as_u64`. The claim: the call depends on the
/// value alone.
#[verifier::external_body]
pub(crate) fn as_unsigned(value: &serde_json::Value) -> (number: Option<u64>)
    ensures
        number == json_u64(*value),
{
    value.as_u64()
}

/// The text of the member under `key`, where the document has such a
/// member and it is a JSON string.
pub open spec fn text_member(document: serde_json::Value, key: Seq<char>) -> Option<Seq<char>> {
    match json_member(document, key) {
        Some(inner) => json_string(inner),
        None => None,
    }
}

/// The number of the member under `key`, where the document has such a
/// member and it is an integer from 0 to `u64::MAX`.
pub open spec fn unsigned_member(document: serde_json::Value, key: Seq<char>) -> Option<u64> {
    match json_member(document, key) {
        Some(inner) => json_u64(inner),
        None => None,
    }
}

/// Looks up the text of the member under `key`.
pub(crate) fn get_text<'a>(document: &'a serde_json::Value, key: &str) -> (text: Option<&'a str>)
    ensures
        match text {
            Some(s) => text_member(*document, key@) == Some(s@),
            None => text_member(*document, key@) is None,
        },
{
    match member(document, key) {
        Some(inner) => as_text(inner),
        None => None,
    }
}

/// Looks up the number of the member under `key`.
pub(crate) fn get_unsigned(document: &serde_json::Value, key: &str) -> (number: Option<u64>)
    ensures
        number == unsigned_member(*document, key@),
{
    match member(document, key) {
        Some(inner) => as_unsigned(inner),
        None => None,
    }
}

} // verus!
