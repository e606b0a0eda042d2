//! JSON documents, read with `serde_json`.
//!
//! A `serde_json::Value` is opaque here. Its compact text says all there is
//! to say of it, so what is read out of a document is named after that
//! text. Each function below calls one function of `serde_json` and names
//! what comes back.

use vstd::prelude::*;

verus! {

#[verifier::external_type_specification]
#[verifier::external_body]
pub struct ExValue(serde_json::Value);

#[verifier::external_type_specification]
#[verifier::external_body]
pub struct ExJsonError(serde_json::Error);

/// `value` written out as compact JSON text.
pub uninterp spec fn json_rendering(value: serde_json::Value) -> Seq<char>;

/// The compact text of the document that `text` spells, if it spells one.
pub uninterp spec fn json_parsed(text: Seq<char>) -> Option<Seq<char>>;

/// The compact text of the member under `key` of the document whose
/// compact text is `document`.
pub uninterp spec fn json_member_of(document: Seq<char>, key: Seq<char>) -> Seq<char>;

/// The whole number, within the range of `i64`, that the document whose
/// compact text is `document` consists of, if it consists of one.
pub uninterp spec fn json_integer_of(document: Seq<char>) -> Option<i64>;

/// Parses `text` with `serde_json::from_str`. The outcome depends on the
/// text alone: a document, whose compact text goes by the name
/// `json_parsed(text)`, or an error where the text spells none.
#[verifier::external_body]
pub(crate) fn parse(text: &str) -> (parsed: Result<serde_json::Value, serde_json::Error>)
    ensures
        parsed matches Ok(document) ==> json_parsed(text@) == Some(json_rendering(document)),
        parsed is Err ==> json_parsed(text@) is None,
{
    serde_json::from_str(text)
}

/// The member of `value` under `key`, by `Value`'s `Index<&str>`, which
/// never fails: it yields JSON's `null` where `value` is no object or has
/// no such member.
#[verifier::external_body]
pub(crate) fn member<'a>(value: &'a serde_json::Value, key: &str) -> (found: &'a serde_json::Value)
    ensures
        json_rendering(*found) == json_member_of(json_rendering(*value), key@),
{
    &value[key]
}

/// `value` as compact JSON text, by `Value`'s `Display` through
/// `to_string`.
#[verifier::external_body]
pub(crate) fn render(value: &serde_json::Value) -> (text: String)
    ensures
        text@ == json_rendering(*value),
{
    value.to_string()
}

/// `value` as an `i64`, by `Value::as_i64`: `None` for anything but a whole
/// number within the range of `i64`.
#[verifier::external_body]
pub(crate) fn integer(value: &serde_json::Value) -> (number: Option<i64>)
    ensures
        number == json_integer_of(json_rendering(*value)),
{
    value.as_i64()
}

} // verus!
