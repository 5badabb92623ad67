//! What this library takes on trust about `serde_json`.
//!
//! A parsed document is opaque here. Every question that the library asks of
//! one goes through a function of this file, and what that function answers
//! is given a name, so that contracts elsewhere can speak of it.

use vstd::prelude::*;

verus! {

#[verifier::external_type_specification]
#[verifier::external_body]
pub struct ExValue(serde_json::Value);

#[verifier::external_type_specification]
#[verifier::external_body]
pub struct ExJsonError(serde_json::Error);

/// The document that a text is parsed into by `serde_json::from_str`; `None`
/// where the text is no JSON.
pub uninterp spec fn json_document(text: Seq<char>) -> Option<serde_json::Value>;

/// What `serde_json::from_str` says against a text that is no JSON.
pub uninterp spec fn json_fault(text: Seq<char>) -> Seq<char>;

/// The message of a parse error, as its `to_string` gives it.
pub uninterp spec fn json_error_text(error: serde_json::Error) -> Seq<char>;

/// The member of an object under a key, as `Value::get` finds it; `None`
/// where the value is no object or has no such member.
pub uninterp spec fn json_member(value: serde_json::Value, key: Seq<char>) -> Option<
    serde_json::Value,
>;

/// The text of a string value, as `Value::as_str` gives it; `None` for any
/// other value.
pub uninterp spec fn json_text(value: serde_json::Value) -> Option<Seq<char>>;

/// The number of an integer value that fits a `u64`, as `Value::as_u64` gives
/// it; `None` for any other value.
pub uninterp spec fn json_unsigned(value: serde_json::Value) -> Option<u64>;

/// The elements of an array value, as `Value::as_array` gives them; `None`
/// for any other value.
pub uninterp spec fn json_elements(value: serde_json::Value) -> Option<Seq<serde_json::Value>>;

/// Calls `serde_json::from_str` for a `Value`. Taken on trust: the outcome
/// depends on the text alone. It is the document named `json_document`, or,
/// where that is `None`, an error whose message is the one named
/// `json_fault`.
#[verifier::external_body]
pub(crate) fn parse_document(text: &str) -> (parsed: Result<serde_json::Value, serde_json::Error>)
    ensures
        match parsed {
            Ok(value) => json_document(text@) == Some(value),
            Err(error) => json_document(text@) is None && json_error_text(error) == json_fault(
                text@,
            ),
        },
{
    serde_json::from_str(text)
}

/// Calls `to_string` on a `serde_json::Error`. Taken on trust: the text
/// depends on the error alone, and is the message named `json_error_text`.
#[verifier::external_body]
pub(crate) fn error_text(error: &serde_json::Error) -> (text: String)
    ensures
        text@ == json_error_text(*error),
{
    error.to_string()
}

/// Calls `Value::get` with a text key. Taken on trust: the answer depends on
/// the value and the key alone, and is the member named `json_member`.
#[verifier::external_body]
pub(crate) fn member<'a>(value: &'a serde_json::Value, key: &str) -> (found: Option<
    &'a serde_json::Value,
>)
    ensures
        match found {
            Some(inner) => json_member(*value, key@) == Some(*inner),
            None => json_member(*value, key@) is None,
        },
{
    value.get(key)
}

/// Calls `Value::as_str`. Taken on trust: the answer depends on the value
/// alone, and is the text named `json_text`.
#[verifier::external_body]
pub(crate) fn text<'a>(value: &'a serde_json::Value) -> (found: Option<&'a str>)
    ensures
        match found {
            Some(inner) => json_text(*value) == Some(inner@),
            None => json_text(*value) is None,
        },
{
    value.as_str()
}

/// Calls `Value::as_u64`. Taken on trust: the answer depends on the value
/// alone, and is the number named `json_unsigned`.
#[verifier::external_body]
pub(crate) fn unsigned(value: &serde_json::Value) -> (found: Option<u64>)
    ensures
        found == json_unsigned(*value),
{
    value.as_u64()
}

/// Calls `Value::as_array`. Taken on trust: the answer depends on the value
/// alone, and holds the elements named `json_elements`, in their order.
#[verifier::external_body]
pub(crate) fn elements<'a>(value: &'a serde_json::Value) -> (found: Option<
    &'a Vec<serde_json::Value>,
>)
    ensures
        match found {
            Some(items) => json_elements(*value) == Some(items@),
            None => json_elements(*value) is None,
        },
{
    value.as_array()
}

} // verus!
