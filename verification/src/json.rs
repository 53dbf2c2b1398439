//! The parts of `serde_json` that the decoder is built on.
//!
//! A parsed document is a `serde_json::Value`. Verus sees nothing inside
//! one; what the decoder reads from it goes through the accessors below, and
//! each accessor's result has a name that contracts can speak of. Nothing in
//! this file is proved: every contract here restates what the `serde_json`
//! source shows.

use vstd::prelude::*;

verus! {

/// `serde_json::Value`, a parsed JSON document or a part of one. It is
/// carried through as it is; nothing is read from it but by the accessors.
#[verifier::external_type_specification]
#[verifier::external_body]
pub struct ExJsonValue(serde_json::Value);

/// `serde_json::Error`, the reason why a text is no JSON document. The
/// decoder only tells it apart from success.
#[verifier::external_type_specification]
#[verifier::external_body]
pub struct ExJsonError(serde_json::Error);

/// The document that `serde_json::from_str` reads from `text`, or `None`
/// where it reports an error.
pub uninterp spec fn json_document(text: Seq<char>) -> Option<serde_json::Value>;

/// The elements of `v` where it is a JSON array, in order; `None` for any
/// other kind of value.
pub uninterp spec fn json_elements(v: serde_json::Value) -> Option<Seq<serde_json::Value>>;

/// The value stored under `key` where `v` is a JSON object that has such a
/// member; `None` where the member is missing or `v` is no object.
pub uninterp spec fn json_member(v: serde_json::Value, key: Seq<char>) -> Option<serde_json::Value>;

/// The number `v` where it is a JSON integer that fits in an `i64`; `None`
/// for a fraction, an integer out of that range or any other kind of value.
pub uninterp spec fn json_integer(v: serde_json::Value) -> Option<i64>;

/// The characters of `v` where it is a JSON string; `None` for any other
/// kind of value.
pub uninterp spec fn json_text(v: serde_json::Value) -> Option<Seq<char>>;

/// Calls `serde_json::from_str::<serde_json::Value>`, which reads the whole
/// of `text` as one JSON document and reports an error for anything else,
/// trailing characters after the document among them.
///
/// The contract claims that the outcome is a function of the text: `Ok` with
/// the document [`json_document`] names, `Err` exactly where there is none.
/// Nothing is claimed about what the error says.
#[verifier::external_body]
pub(crate) fn parse_document(text: &str) -> (r: Result<serde_json::Value, serde_json::Error>)
    ensures
        match r {
            Ok(v) => json_document(text@) == Some(v),
            Err(_) => json_document(text@) is None,
        },
{
    serde_json::from_str::<serde_json::Value>(text)
}

/// Calls `serde_json::Value::as_array`, which hands out the vector behind a
/// value of the array kind and `None` for every other kind.
///
/// The contract claims that the vector holds the elements that
/// [`json_elements`] names, in their order.
#[verifier::external_body]
pub(crate) fn elements(v: &serde_json::Value) -> (r: Option<&Vec<serde_json::Value>>)
    ensures
        match r {
            Some(items) => json_elements(*v) == Some(items@),
            None => json_elements(*v) is None,
        },
{
    v.as_array()
}

/// Calls `serde_json::Value::get` with a string index, which looks `key` up
/// among the members of an object and gives `None` where the value is no
/// object or has no such member.
///
/// The contract claims that the result is the member [`json_member`] names.
#[verifier::external_body]
pub(crate) fn member<'a>(v: &'a serde_json::Value, key: &str) -> (r: Option<&'a serde_json::Value>)
    ensures
        match r {
            Some(m) => json_member(*v, key@) == Some(*m),
            None => json_member(*v, key@) is None,
        },
{
    v.get(key)
}

/// Calls `serde_json::Value::as_i64`, which gives the number behind a value
/// that is an integer within the range of `i64`, and `None` for a fraction,
/// for an integer above that range and for every other kind of value.
///
/// The contract claims that the result is what [`json_integer`] names.
#[verifier::external_body]
pub(crate) fn integer(v: &serde_json::Value) -> (r: Option<i64>)
    ensures
        r == json_integer(*v),
{
    v.as_i64()
}

/// Calls `serde_json::Value::as_str`, which hands out the text behind a
/// value of the string kind and `None` for every other kind.
///
/// The contract claims that the text is what [`json_text`] names.
#[verifier::external_body]
pub(crate) fn text<'a>(v: &'a serde_json::Value) -> (r: Option<&'a str>)
    ensures
        match r {
            Some(s) => json_text(*v) == Some(s@),
            None => json_text(*v) is None,
        },
{
    v.as_str()
}

} // verus!
