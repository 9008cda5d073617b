//! JSON documents, read through `serde_json`.
//!
//! A parsed document stays a `serde_json::Value`. Contracts speak of it through
//! [`json_view`], and every read of it goes through one of the small functions
//! below, each of which states what the `serde_json` method it calls returns.

use serde_json::Value;
use vstd::prelude::*;

verus! {

/// `serde_json::Value`, a parsed JSON value. Nothing of its inside is visible
/// to proofs but what [`json_view`] names.
#[verifier::external_type_specification]
#[verifier::external_body]
pub struct ExValue(serde_json::Value);

/// The part of a JSON value that this library looks at.
///
/// A number is kept as the unsigned integer that it denotes, if it denotes one
/// that fits 64 bits: negative and fractional numbers are `Number(None)`.
pub enum JsonModel {
    Null,
    Bool(bool),
    Number(Option<u64>),
    Text(Seq<char>),
    Array(Seq<JsonModel>),
    Object(Map<Seq<char>, JsonModel>),
}

/// The content of a parsed value.
pub uninterp spec fn json_view(v: Value) -> JsonModel;

/// The document that `serde_json` reads from a text, `None` where it rejects the text.
pub uninterp spec fn json_document(text: Seq<char>) -> Option<JsonModel>;

/// The views of a list of strings.
pub open spec fn names_view(names: Seq<String>) -> Seq<Seq<char>> {
    names.map_values(|n: String| n@)
}

/// Calls `serde_json::from_str` at type `Value`. Trusted: the outcome is the
/// one that [`json_document`] names for this text.
#[verifier::external_body]
pub(crate) fn parse_document(text: &str) -> (r: Option<Value>)
    ensures
        match r {
            Some(v) => json_document(text@) == Some(json_view(v)),
            None => json_document(text@) is None,
        },
{
    serde_json::from_str::<Value>(text).ok()
}

/// Calls `Value::get` with a string index. Trusted: it yields the member of
/// that name where the value is an object that has one, and nothing otherwise.
#[verifier::external_body]
pub(crate) fn member<'a>(v: &'a Value, name: &str) -> (r: Option<&'a Value>)
    ensures
        match json_view(*v) {
            JsonModel::Object(m) => if m.contains_key(name@) {
                r matches Some(x) && json_view(*x) == m[name@]
            } else {
                r is None
            },
            _ => r is None,
        },
{
    v.get(name)
}

/// Calls `Value::get` with a number index. Trusted: it yields the element at
/// that position where the value is an array that long, and nothing otherwise.
#[verifier::external_body]
pub(crate) fn element<'a>(v: &'a Value, index: usize) -> (r: Option<&'a Value>)
    ensures
        match json_view(*v) {
            JsonModel::Array(a) => if index < a.len() {
                r matches Some(x) && json_view(*x) == a[index as int]
            } else {
                r is None
            },
            _ => r is None,
        },
{
    v.get(index)
}

/// Calls `Value::as_object` and `Map::keys`. Trusted: for an object it yields
/// every member name once, in no stated order; for anything else, nothing.
#[verifier::external_body]
pub(crate) fn member_names(v: &Value) -> (r: Option<Vec<String>>)
    ensures
        match json_view(*v) {
            JsonModel::Object(m) => r matches Some(names) && names_view(names@).no_duplicates()
                && forall|k: Seq<char>| #[trigger] m.contains_key(k) <==> names_view(names@).contains(k),
            _ => r is None,
        },
{
    v.as_object().map(|m| m.keys().cloned().collect())
}

/// Calls `Value::as_bool`. Trusted: it yields the truth value of a JSON boolean
/// and nothing for any other value.
#[verifier::external_body]
pub(crate) fn as_bool(v: &Value) -> (r: Option<bool>)
    ensures
        r == (match json_view(*v) {
            JsonModel::Bool(b) => Some(b),
            _ => None,
        }),
{
    v.as_bool()
}

/// Calls `Value::as_u64`. Trusted: it yields the value of a JSON number that is
/// an unsigned integer of at most 64 bits and nothing for any other value.
#[verifier::external_body]
pub(crate) fn as_u64(v: &Value) -> (r: Option<u64>)
    ensures
        r == (match json_view(*v) {
            JsonModel::Number(n) => n,
            _ => None,
        }),
{
    v.as_u64()
}

/// Calls `Value::as_str`. Trusted: it yields the characters of a JSON string
/// and nothing for any other value.
#[verifier::external_body]
pub(crate) fn as_text<'a>(v: &'a Value) -> (r: Option<&'a str>)
    ensures
        match json_view(*v) {
            JsonModel::Text(t) => r matches Some(s) && s@ == t,
            _ => r is None,
        },
{
    v.as_str()
}

/// Calls `Value::is_object`. Trusted: it tells whether the value is a JSON object.
#[verifier::external_body]
pub(crate) fn is_object(v: &Value) -> (r: bool)
    ensures
        r == (json_view(*v) is Object),
{
    v.is_object()
}

/// Calls `Value::is_null`. Trusted: it tells whether the value is JSON `null`.
#[verifier::external_body]
pub(crate) fn is_null(v: &Value) -> (r: bool)
    ensures
        r == (json_view(*v) is Null),
{
    v.is_null()
}

} // verus!
