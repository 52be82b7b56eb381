//! JSON documents, read with `serde_json`.
//!
//! A parsed document stays inside `serde_json::Value`. The functions of this module
//! are the only ones that touch it: each makes one call into `serde_json` and states
//! what that call returns over [`Json`], the mathematical content of a document.
//! None of these contracts is proved; each says what the crate's source shows.
use vstd::prelude::*;

verus! {

/// The mathematical content of a JSON document.
pub enum Json {
    Null,
    Bool(bool),
    /// A number that `serde_json` holds as an integer: one written without fraction
    /// or exponent whose value lies between `i64::MIN` and `u64::MAX`.
    Integer(int),
    /// Any other number.
    Real,
    Text(Seq<char>),
    Array(Seq<Json>),
    /// The members of an object, by key.
    Object(Map<Seq<char>, Json>),
}

/// `serde_json::Value`, a parsed document. Verified code carries it and asks the
/// functions below about it; it never looks inside.
#[verifier::external_type_specification]
#[verifier::external_body]
pub struct ExValue(serde_json::Value);

/// `serde_json::Error`, the reason for which a text was refused.
#[verifier::external_type_specification]
#[verifier::external_body]
pub struct ExError(serde_json::Error);

/// The document that a `serde_json::Value` holds.
pub uninterp spec fn json_of(value: serde_json::Value) -> Json;

/// What `serde_json::from_str` reads from a text: the document, or nothing where it
/// refuses the text.
pub uninterp spec fn json_text(text: Seq<char>) -> Option<Json>;

/// `serde_json::from_str` into a `Value`. It returns a value exactly where the parser
/// accepts the text, and that value holds the document the parser read.
#[verifier::external_body]
pub(crate) fn parse_value(text: &str) -> (r: Result<serde_json::Value, serde_json::Error>)
    ensures
        match r {
            Ok(v) => json_text(text@) == Some(json_of(v)),
            Err(_) => json_text(text@) is None,
        },
{
    serde_json::from_str::<serde_json::Value>(text)
}

/// `Value::get` with a string key: the member of that name where the value is an
/// object that has one, and nothing otherwise.
#[verifier::external_body]
pub(crate) fn member<'a>(value: &'a serde_json::Value, key: &str) -> (r: Option<
    &'a serde_json::Value,
>)
    ensures
        match json_of(*value) {
            Json::Object(fields) => if fields.contains_key(key@) {
                r is Some && json_of(*r.unwrap()) == fields[key@]
            } else {
                r is None
            },
            _ => r is None,
        },
{
    value.get(key)
}

/// `Value::is_object`.
#[verifier::external_body]
pub(crate) fn is_object(value: &serde_json::Value) -> (r: bool)
    ensures
        r == (json_of(*value) is Object),
{
    value.is_object()
}

/// `Value::is_null`.
#[verifier::external_body]
pub(crate) fn is_null(value: &serde_json::Value) -> (r: bool)
    ensures
        r == (json_of(*value) is Null),
{
    value.is_null()
}

/// `Value::as_i64`: the number where the value is an integer that fits in `i64`.
#[verifier::external_body]
pub(crate) fn as_i64(value: &serde_json::Value) -> (r: Option<i64>)
    ensures
        r == (match json_of(*value) {
            Json::Integer(n) if i64::MIN <= n <= i64::MAX => Some(n as i64),
            _ => None,
        }),
{
    value.as_i64()
}

/// `Value::as_u64`: the number where the value is an integer that is not negative.
#[verifier::external_body]
pub(crate) fn as_u64(value: &serde_json::Value) -> (r: Option<u64>)
    ensures
        r == (match json_of(*value) {
            Json::Integer(n) if 0 <= n <= u64::MAX => Some(n as u64),
            _ => None,
        }),
{
    value.as_u64()
}

/// `Value::as_str`: the characters where the value is a string.
#[verifier::external_body]
pub(crate) fn as_str<'a>(value: &'a serde_json::Value) -> (r: Option<&'a str>)
    ensures
        match json_of(*value) {
            Json::Text(t) => r is Some && r.unwrap()@ == t,
            _ => r is None,
        },
{
    value.as_str()
}

/// `Value::as_array`: the elements, in order, where the value is an array.
#[verifier::external_body]
pub(crate) fn as_array<'a>(value: &'a serde_json::Value) -> (r: Option<&'a Vec<serde_json::Value>>)
    ensures
        match json_of(*value) {
            Json::Array(items) => {
                &&& r is Some
                &&& r.unwrap()@.len() == items.len()
                &&& forall|i: int|
                    0 <= i < items.len() ==> json_of(#[trigger] r.unwrap()@[i]) == items[i]
            },
            _ => r is None,
        },
{
    value.as_array()
}

} // verus!
