//! The JSON documents that travel through the dispatcher, as `serde_json` holds them.
//!
//! A `serde_json::Value` is opaque to proofs. Each operation the dispatcher needs
//! is a small function whose result is tied to an uninterpreted function of its
//! arguments, so that the contracts of the dispatcher can speak of "the member
//! `error` of the parsed body" without saying what `serde_json` computes.

use vstd::prelude::*;

verus! {

/// A JSON document as `serde_json` represents it.
#[verifier::external_type_specification]
#[verifier::external_body]
pub struct ExValue(serde_json::Value);

/// The error `serde_json` reports when a text is not JSON or a value has the wrong shape.
#[verifier::external_type_specification]
#[verifier::external_body]
pub struct ExJsonError(serde_json::Error);

/// What `serde_json::from_slice` makes of a byte string read as one JSON document.
pub uninterp spec fn parsed(bytes: Seq<u8>) -> Result<serde_json::Value, serde_json::Error>;

/// The value that indexing `value` with the string `key` yields.
pub uninterp spec fn member_of(value: serde_json::Value, key: Seq<char>) -> serde_json::Value;

/// Whether `value` is a JSON object.
pub uninterp spec fn is_object(value: serde_json::Value) -> bool;

/// The compact JSON text of `value`.
pub uninterp spec fn rendered(value: serde_json::Value) -> Seq<char>;

/// The message that a `serde_json` error displays.
pub uninterp spec fn error_message(error: serde_json::Error) -> Seq<char>;

/// Reads `bytes` as one JSON document with `serde_json::from_slice`.
///
/// Trusted: the outcome is a function of the bytes alone. Nothing is claimed about
/// which byte strings are accepted.
#[verifier::external_body]
pub(crate) fn parse(bytes: &[u8]) -> (r: Result<serde_json::Value, serde_json::Error>)
    ensures
        r == parsed(bytes@),
{
    serde_json::from_slice::<serde_json::Value>(bytes)
}

/// A copy of `value[key]`, the indexing of `serde_json::Value` by a string.
///
/// Trusted: the result is a function of the value and the key. Indexing never
/// fails: `serde_json` yields the null value where `value` is no object or has no
/// such member.
#[verifier::external_body]
pub(crate) fn member(value: &serde_json::Value, key: &str) -> (r: serde_json::Value)
    ensures
        r == member_of(*value, key@),
{
    value[key].clone()
}

/// `serde_json::Value::is_object`.
///
/// Trusted: the answer is a function of the value.
#[verifier::external_body]
pub(crate) fn value_is_object(value: &serde_json::Value) -> (r: bool)
    ensures
        r == is_object(*value),
{
    value.is_object()
}

/// The text that `serde_json::Value` displays: the document in compact form.
///
/// Trusted: the text is a function of the value. Writing a `Value` cannot fail,
/// since its keys are strings and its numbers are finite.
#[verifier::external_body]
pub(crate) fn render(value: &serde_json::Value) -> (r: String)
    ensures
        r@ == rendered(*value),
{
    value.to_string()
}

/// The text that a `serde_json::Error` displays.
///
/// Trusted: the text is a function of the error.
#[verifier::external_body]
pub(crate) fn describe(error: &serde_json::Error) -> (r: String)
    ensures
        r@ == error_message(*error),
{
    error.to_string()
}

} // verus!
