//! The JSON values that travel through the relay, and what is taken on trust
//! about the JSON library that makes and reads them.
//!
//! A JSON value is opaque here. What the contracts say about one, they say
//! about its compact text: the text that printing the value yields.

use vstd::prelude::*;

verus! {

/// `serde_json::Value`: a JSON value. Nothing inside it is seen here; it is
/// made, read and printed through the functions below.
#[verifier::external_type_specification]
#[verifier::external_body]
pub struct ExValue(serde_json::Value);

/// What a JSON value holds, as its compact text: the text that printing the
/// value yields, without white space between its parts.
pub uninterp spec fn json_text(value: serde_json::Value) -> Seq<char>;

/// The compact texts of the elements of the JSON array that `text` holds, or
/// `None` where `text` is not one JSON array.
pub uninterp spec fn json_array_items(text: Seq<char>) -> Option<Seq<Seq<char>>>;

/// The compact text of member `key` of the JSON object with compact text
/// `document`, or `None` where `document` is no object or has no such member.
pub uninterp spec fn json_member(document: Seq<char>, key: Seq<char>) -> Option<Seq<char>>;

/// The characters of the JSON string with compact text `document`, or `None`
/// where `document` is not a string.
pub uninterp spec fn json_string(document: Seq<char>) -> Option<Seq<char>>;

/// The number that the compact text `document` stands for, where that is an
/// integer between the least and the greatest `i64`; `None` for every other
/// number and for what is no number.
pub uninterp spec fn json_integer(document: Seq<char>) -> Option<i64>;

/// A compact JSON text is that of an object exactly when it begins with a brace.
pub open spec fn is_object_text(document: Seq<char>) -> bool {
    document.len() > 0 && document[0] == '{'
}

/// The compact texts of a list of values, in order.
pub open spec fn json_texts(values: Seq<serde_json::Value>) -> Seq<Seq<char>> {
    values.map_values(|v: serde_json::Value| json_text(v))
}

/// `serde_json::from_str` at the type `Vec<Value>`: the elements of the array
/// that `text` holds. A text that is not one JSON array gives `None`.
#[verifier::external_body]
pub(crate) fn parse_array(text: &str) -> (items: Option<Vec<serde_json::Value>>)
    ensures
        match items {
            Some(values) => json_array_items(text@) == Some(json_texts(values@)),
            None => json_array_items(text@) is None,
        },
{
    serde_json::from_str::<Vec<serde_json::Value>>(text).ok()
}

/// `Value::get` with a string key: the named member of an object. A value
/// that is no object, or has no such member, gives `None`.
#[verifier::external_body]
pub(crate) fn member<'a>(value: &'a serde_json::Value, key: &str) -> (found: Option<
    &'a serde_json::Value,
>)
    ensures
        match found {
            Some(m) => json_member(json_text(*value), key@) == Some(json_text(*m)),
            None => json_member(json_text(*value), key@) is None,
        },
{
    value.get(key)
}

/// `Value::to_string`: the compact JSON text of the value.
#[verifier::external_body]
pub(crate) fn render(value: &serde_json::Value) -> (text: String)
    ensures
        text@ == json_text(*value),
{
    value.to_string()
}

/// `Value::Null`: the JSON value `null`.
#[verifier::external_body]
pub(crate) fn json_null() -> (value: serde_json::Value)
    ensures
        json_text(value) == "null"@,
{
    serde_json::Value::Null
}

/// `Value::as_str`: the characters of a JSON string, `None` for any other value.
pub assume_specification<'a>[ serde_json::Value::as_str ](value: &'a serde_json::Value) -> (s:
    Option<&'a str>)
    ensures
        match s {
            Some(chars) => json_string(json_text(*value)) == Some(chars@),
            None => json_string(json_text(*value)) is None,
        },
;

/// `Value::as_i64`: the number, where the value is an integer that an `i64`
/// holds; `None` for any other value.
pub assume_specification[ serde_json::Value::as_i64 ](value: &serde_json::Value) -> (n: Option<i64>)
    ensures
        n == json_integer(json_text(*value)),
;

/// `Value::is_object`: whether the value is a JSON object, which is to say
/// whether its compact text begins with a brace.
pub assume_specification[ serde_json::Value::is_object ](value: &serde_json::Value) -> (b: bool)
    ensures
        b == is_object_text(json_text(*value)),
;

/// `Value::clone`: a value equal to the one cloned.
pub assume_specification[ <serde_json::Value as Clone>::clone ](
    value: &serde_json::Value,
) -> (copy: serde_json::Value)
    ensures
        copy == *value,
;

} // verus!
