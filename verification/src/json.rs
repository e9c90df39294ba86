//! The JSON reader behind the map asset. Parsing and lookups are done by
//! `serde_json`; what it returns is given a name here, and the contracts below
//! are taken on trust from its source rather than proved.

use vstd::prelude::*;

verus! {

/// A parsed JSON value, opaque to the verifier.
#[verifier::external_type_specification]
#[verifier::external_body]
pub struct ExJsonValue(serde_json::Value);

/// Why a text failed to parse as JSON, opaque to the verifier.
#[verifier::external_type_specification]
#[verifier::external_body]
pub struct ExJsonError(serde_json::Error);

/// The document that `serde_json::from_str` reads from a text, or `None`
/// where it reports an error.
pub uninterp spec fn json_document(text: Seq<char>) -> Option<serde_json::Value>;

/// The value that `serde_json::Value::pointer` finds in a document under a
/// JSON Pointer, or `None` where it finds none.
pub uninterp spec fn json_at(document: serde_json::Value, pointer: Seq<char>) -> Option<
    serde_json::Value,
>;

/// What `serde_json::Value::as_i64` returns: the value as a 64-bit signed
/// integer, or `None` where it is not a number or does not fit.
pub uninterp spec fn json_integer(value: serde_json::Value) -> Option<i64>;

/// The elements that `serde_json::Value::as_array` hands out, in order, or
/// `None` where the value is not an array.
pub uninterp spec fn json_items(value: serde_json::Value) -> Option<Seq<serde_json::Value>>;

/// Calls `serde_json::from_str` for a `Value`. Trusted: the result is the
/// named document of the text, and an error comes exactly where there is none.
#[verifier::external_body]
pub(crate) fn parse_document(text: &str) -> (parsed: Result<serde_json::Value, serde_json::Error>)
    ensures
        match parsed {
            Ok(document) => json_document(text@) == Some(document),
            Err(_) => json_document(text@) is None,
        },
{
    serde_json::from_str::<serde_json::Value>(text)
}

/// Calls `serde_json::Value::pointer`. Trusted: the result is the named value
/// under the pointer, and `None` comes exactly where there is none.
#[verifier::external_body]
pub(crate) fn value_at<'a>(document: &'a serde_json::Value, pointer: &str) -> (found: Option<
    &'a serde_json::Value,
>)
    ensures
        match found {
            Some(value) => json_at(*document, pointer@) == Some(*value),
            None => json_at(*document, pointer@) is None,
        },
{
    document.pointer(pointer)
}

/// Calls `serde_json::Value::as_i64`. Trusted: the result is the named
/// integer of the value.
#[verifier::external_body]
pub(crate) fn value_as_i64(value: &serde_json::Value) -> (number: Option<i64>)
    ensures
        number == json_integer(*value),
{
    value.as_i64()
}

/// Calls `serde_json::Value::as_array`. Trusted: the result holds the named
/// elements in order, and `None` comes exactly where the value is not an
/// array.
#[verifier::external_body]
pub(crate) fn value_as_array<'a>(value: &'a serde_json::Value) -> (items: Option<
    &'a Vec<serde_json::Value>,
>)
    ensures
        match items {
            Some(list) => json_items(*value) == Some(list@),
            None => json_items(*value) is None,
        },
{
    value.as_array()
}

} // verus!
