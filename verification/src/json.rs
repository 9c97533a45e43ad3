//! The boundary to `serde_json`: a mathematical model of a JSON value and the
//! few operations of `serde_json::Value` that the loaders rely on.

use vstd::prelude::*;

verus! {

/// A JSON value as contracts see it.
///
/// Integers are the numbers that `serde_json` holds as `u64` or `i64`; every
/// other number is `Fraction`, whose magnitude the loaders never read.
pub enum Json {
    Null,
    Bool(bool),
    Integer(int),
    Fraction,
    String(Seq<char>),
    Array(Seq<Json>),
    Object(Map<Seq<char>, Json>),
}

/// The member of an object under a name; `None` for a value that is no
/// object and for an object without that name.
pub open spec fn json_member(value: Json, key: Seq<char>) -> Option<Json> {
    match value {
        Json::Object(fields) => if fields.contains_key(key) {
            Some(fields[key])
        } else {
            None
        },
        _ => None,
    }
}

/// The number that a value holds, where the value is an integer from 0 to
/// `limit`.
pub open spec fn json_unsigned(value: Json, limit: int) -> Option<int> {
    match value {
        Json::Integer(number) => if 0 <= number <= limit {
            Some(number)
        } else {
            None
        },
        _ => None,
    }
}

#[verifier::external_type_specification]
#[verifier::external_body]
pub struct ExValue(serde_json::Value);

#[verifier::external_type_specification]
#[verifier::external_body]
pub struct ExError(serde_json::Error);

/// The model of a `serde_json::Value`.
pub uninterp spec fn json_view(value: serde_json::Value) -> Json;

/// What `serde_json` makes of a text: the model of the value that it parses,
/// or `None` where it reports an error.
pub uninterp spec fn text_json(text: Seq<char>) -> Option<Json>;

/// `serde_json::from_str::<serde_json::Value>`: parses a whole text as one
/// JSON value. Whether it succeeds, and with which value, depends on the text
/// alone and is `text_json` of it.
#[verifier::external_body]
pub(crate) fn parse_text(text: &str) -> (parsed: Result<serde_json::Value, serde_json::Error>)
    ensures
        match parsed {
            Ok(value) => text_json(text@) == Some(json_view(value)),
            Err(_) => text_json(text@) is None,
        },
{
    serde_json::from_str::<serde_json::Value>(text)
}

/// `serde_json::Value::get` with a string key: the member of that name where
/// the value is an object that has one, `None` otherwise.
#[verifier::external_body]
pub(crate) fn member<'a>(value: &'a serde_json::Value, key: &str) -> (found: Option<
    &'a serde_json::Value,
>)
    ensures
        match found {
            Some(inner) => json_member(json_view(*value), key@) == Some(json_view(*inner)),
            None => json_member(json_view(*value), key@) is None,
        },
{
    value.get(key)
}

/// `serde_json::Value::as_u64`: the number where the value is a non-negative
/// integer that fits `u64`, `None` otherwise.
#[verifier::external_body]
pub(crate) fn as_unsigned(value: &serde_json::Value) -> (number: Option<u64>)
    ensures
        match number {
            Some(n) => json_unsigned(json_view(*value), u64::MAX as int) == Some(n as int),
            None => json_unsigned(json_view(*value), u64::MAX as int) is None,
        },
{
    value.as_u64()
}

/// `serde_json::Value::as_str`: the text where the value is a string.
#[verifier::external_body]
pub(crate) fn as_string<'a>(value: &'a serde_json::Value) -> (text: Option<&'a str>)
    ensures
        match text {
            Some(s) => json_view(*value) == Json::String(s@),
            None => !(json_view(*value) is String),
        },
{
    value.as_str()
}

/// `serde_json::Value::is_object`.
#[verifier::external_body]
pub(crate) fn is_object(value: &serde_json::Value) -> (yes: bool)
    ensures
        yes == (json_view(*value) is Object),
{
    value.is_object()
}

} // verus!
