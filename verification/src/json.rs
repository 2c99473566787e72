//! JSON documents as the parser sees them.
//!
//! Documents are decoded and navigated by `serde_json`. This module states what
//! each of the calls it relies on returns, over a mathematical model of a
//! document, and builds on them the typed field readers that tolerate absent
//! and ill-shaped fields.

use serde_json::Value;
use vstd::prelude::*;

verus! {

/// A JSON number, in the form in which a decoded document holds it.
pub enum Numeral {
    /// A whole number that is not negative.
    Unsigned(u64),
    /// A whole number below zero.
    Negative(i64),
    /// A finite floating-point number, by the bits of its binary64 form.
    Binary64(u64),
}

/// The content of a JSON document.
pub enum Json {
    Null,
    Bool(bool),
    Number(Numeral),
    Text(Seq<char>),
    List(Seq<Json>),
    Object(Map<Seq<char>, Json>),
}

#[verifier::external_type_specification]
#[verifier::external_body]
pub struct ExValue(serde_json::Value);

/// The content of a decoded document.
pub uninterp spec fn json_of(v: Value) -> Json;

/// The document that a text decodes to, if it is well-formed JSON.
pub uninterp spec fn json_text(bytes: Seq<u8>) -> Option<Json>;

/// The member `key` of an object; nothing for a missing key and for any
/// document that is not an object.
pub open spec fn member(j: Json, key: Seq<char>) -> Option<Json> {
    match j {
        Json::Object(fields) => if fields.contains_key(key) {
            Some(fields[key])
        } else {
            None
        },
        _ => None,
    }
}

/// The integer that a document holds, if it is an integer within `i64`.
pub open spec fn as_integer(j: Json) -> Option<i64> {
    match j {
        Json::Number(Numeral::Unsigned(n)) => if n <= i64::MAX {
            Some(n as i64)
        } else {
            None
        },
        Json::Number(Numeral::Negative(n)) => Some(n),
        _ => None,
    }
}

/// The integer that a document holds, if it is a whole number that is not
/// negative.
pub open spec fn as_unsigned(j: Json) -> Option<u64> {
    match j {
        Json::Number(Numeral::Unsigned(n)) => Some(n),
        _ => None,
    }
}

/// The text that a document holds, if it is a string.
pub open spec fn as_text(j: Json) -> Option<Seq<char>> {
    match j {
        Json::Text(s) => Some(s),
        _ => None,
    }
}

/// The truth value that a document holds, if it is a boolean.
pub open spec fn as_flag(j: Json) -> Option<bool> {
    match j {
        Json::Bool(b) => Some(b),
        _ => None,
    }
}

/// The elements of a document, if it is an array.
pub open spec fn as_list(j: Json) -> Option<Seq<Json>> {
    match j {
        Json::List(items) => Some(items),
        _ => None,
    }
}

/// The contents of each decoded element, in order.
pub open spec fn contents(items: Seq<Value>) -> Seq<Json> {
    items.map_values(|v: Value| json_of(v))
}

/// `serde_json::from_slice`, read as a `Value`: decodes a JSON text. The
/// result depends on the bytes alone. It is absent where the call returns an
/// error: for a text that is not one JSON document, for one nested deeper
/// than the decoder goes, and for one with a number out of range.
#[verifier::external_body]
pub(crate) fn decode(bytes: &[u8]) -> (r: Option<Value>)
    ensures
        r matches Some(v) ==> json_text(bytes@) == Some(json_of(v)),
        r is None ==> json_text(bytes@) is None,
{
    serde_json::from_slice(bytes).ok()
}

/// `Value::get` with a string key: the member of an object under that key,
/// and nothing when the key is missing or the value is not an object.
#[verifier::external_body]
pub(crate) fn get<'a>(v: &'a Value, key: &str) -> (r: Option<&'a Value>)
    ensures
        r matches Some(x) ==> member(json_of(*v), key@) == Some(json_of(*x)),
        r is None ==> member(json_of(*v), key@) is None,
{
    v.get(key)
}

/// `Value::as_i64`: the integer of a number that is held as an integer and
/// fits `i64`; nothing for every other value.
pub assume_specification[ Value::as_i64 ](v: &Value) -> (r: Option<i64>)
    ensures
        r == as_integer(json_of(*v)),
;

/// `Value::as_u64`: the integer of a number that is held as a whole number
/// not below zero; nothing for every other value.
pub assume_specification[ Value::as_u64 ](v: &Value) -> (r: Option<u64>)
    ensures
        r == as_unsigned(json_of(*v)),
;

/// `Value::as_f64`, with the float handed on as its bits by `f64::to_bits`.
/// Every number gives bits and no other value does; a number held as
/// floating point gives the bits it is held by. Of the bits for a number
/// held as an integer nothing is claimed.
#[verifier::external_body]
pub(crate) fn binary64_bits(v: &Value) -> (r: Option<u64>)
    ensures
        r is Some <==> json_of(*v) is Number,
        json_of(*v) matches Json::Number(Numeral::Binary64(bits)) ==> r == Some(bits),
{
    match v.as_f64() {
        Some(x) => Some(x.to_bits()),
        None => None,
    }
}

/// `Value::as_str`: the text of a string; nothing for every other value.
pub assume_specification<'a>[ Value::as_str ](v: &'a Value) -> (r: Option<&'a str>)
    ensures
        r matches Some(s) ==> as_text(json_of(*v)) == Some(s@),
        r is None ==> as_text(json_of(*v)) is None,
;

/// `Value::as_bool`: the truth value of a boolean; nothing for every other
/// value.
pub assume_specification[ Value::as_bool ](v: &Value) -> (r: Option<bool>)
    ensures
        r == as_flag(json_of(*v)),
;

/// `Value::as_array`: the elements of an array, in order; nothing for every
/// other value.
pub assume_specification<'a>[ Value::as_array ](v: &'a Value) -> (r: Option<&'a Vec<Value>>)
    ensures
        r matches Some(items) ==> as_list(json_of(*v)) == Some(contents(items@)),
        r is None ==> as_list(json_of(*v)) is None,
;

/// The integer member `key` of a record; nothing where the member is absent
/// or is no integer within `i64`.
pub open spec fn integer_member(record: Json, key: Seq<char>) -> Option<i64> {
    match member(record, key) {
        Some(j) => as_integer(j),
        None => None,
    }
}

/// The string member `key` of a record; nothing where the member is absent or
/// is no string.
pub open spec fn text_member(record: Json, key: Seq<char>) -> Option<Seq<char>> {
    match member(record, key) {
        Some(j) => as_text(j),
        None => None,
    }
}

/// The boolean member `key` of a record; nothing where the member is absent
/// or is no boolean.
pub open spec fn flag_member(record: Json, key: Seq<char>) -> Option<bool> {
    match member(record, key) {
        Some(j) => as_flag(j),
        None => None,
    }
}

/// The array member `key` of a record; nothing where the member is absent or
/// is no array.
pub open spec fn list_member(record: Json, key: Seq<char>) -> Option<Seq<Json>> {
    match member(record, key) {
        Some(j) => as_list(j),
        None => None,
    }
}

/// Reads an integer member of a record.
pub fn read_integer(record: &Value, key: &str) -> (r: Option<i64>)
    ensures
        r == integer_member(json_of(*record), key@),
{
    match get(record, key) {
        Some(v) => v.as_i64(),
        None => None,
    }
}

/// Reads a string member of a record.
pub fn read_text<'a>(record: &'a Value, key: &str) -> (r: Option<&'a str>)
    ensures
        r matches Some(s) ==> text_member(json_of(*record), key@) == Some(s@),
        r is None ==> text_member(json_of(*record), key@) is None,
{
    match get(record, key) {
        Some(v) => v.as_str(),
        None => None,
    }
}

/// Reads a boolean member of a record.
pub fn read_flag(record: &Value, key: &str) -> (r: Option<bool>)
    ensures
        r == flag_member(json_of(*record), key@),
{
    match get(record, key) {
        Some(v) => v.as_bool(),
        None => None,
    }
}

/// Reads an array member of a record.
pub fn read_list<'a>(record: &'a Value, key: &str) -> (r: Option<&'a Vec<Value>>)
    ensures
        r matches Some(items) ==> list_member(json_of(*record), key@) == Some(contents(items@)),
        r is None ==> list_member(json_of(*record), key@) is None,
{
    match get(record, key) {
        Some(v) => v.as_array(),
        None => None,
    }
}

} // verus!
