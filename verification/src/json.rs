//! Reading JSON documents. A document is parsed into a value of the JSON
//! crate; what the library knows of a value is its text, and everything
//! that is read of a document is read through that text.

use vstd::prelude::*;

verus! {

/// A JSON value, as the JSON crate holds it.
#[verifier::external_type_specification]
#[verifier::external_body]
pub struct ExValue(serde_json::Value);

/// The text of a value: what the value is written out as.
pub uninterp spec fn json_text(v: serde_json::Value) -> Seq<char>;

/// The text of the value that a text parses to; `None` where it parses to
/// none.
pub uninterp spec fn json_parsed(text: Seq<char>) -> Option<Seq<char>>;

/// The text of the member that the value with the given text, an object,
/// holds under `key`.
pub uninterp spec fn json_field(value: Seq<char>, key: Seq<char>) -> Option<Seq<char>>;

/// The text of the element at `index` of the value with the given text, an
/// array.
pub uninterp spec fn json_element(value: Seq<char>, index: usize) -> Option<Seq<char>>;

/// The string that the value with the given text is, where it is one.
pub uninterp spec fn json_string(value: Seq<char>) -> Option<Seq<char>>;

/// The boolean that the value with the given text is, where it is one.
pub uninterp spec fn json_boolean(value: Seq<char>) -> Option<bool>;

/// The integer that the value with the given text is, where it is one that
/// 64 signed bits hold.
pub uninterp spec fn json_integer(value: Seq<char>) -> Option<i64>;

/// The integer that the value with the given text is, where it is one that
/// 64 unsigned bits hold.
pub uninterp spec fn json_unsigned(value: Seq<char>) -> Option<u64>;

/// The number of elements of the value with the given text, where it is an
/// array.
pub uninterp spec fn json_length(value: Seq<char>) -> Option<usize>;

/// The keys of the value with the given text, where it is an object, in the
/// order in which the parsed object holds them.
pub uninterp spec fn json_object_keys(value: Seq<char>) -> Option<Seq<Seq<char>>>;

/// The view of an optional string.
pub open spec fn opt_view(o: Option<String>) -> Option<Seq<char>> {
    match o {
        Some(s) => Some(s@),
        None => None,
    }
}

/// The text of an optional value.
pub open spec fn opt_text(o: Option<serde_json::Value>) -> Option<Seq<char>> {
    match o {
        Some(v) => Some(json_text(v)),
        None => None,
    }
}

/// `serde_json::from_str` into a `serde_json::Value`: the value that the
/// text parses to, if it parses.
#[verifier::external_body]
fn parse(text: &str) -> (r: Option<serde_json::Value>)
    ensures
        opt_text(r) == json_parsed(text@),
{
    serde_json::from_str::<serde_json::Value>(text).ok()
}

/// `serde_json::Value::to_string`: the value written out.
#[verifier::external_body]
fn write_out(v: &serde_json::Value) -> (s: String)
    ensures
        s@ == json_text(*v),
{
    v.to_string()
}

/// `serde_json::Value::get` with a string: the member of an object under a
/// key.
#[verifier::external_body]
fn field(v: &serde_json::Value, key: &str) -> (r: Option<serde_json::Value>)
    ensures
        opt_text(r) == json_field(json_text(*v), key@),
{
    v.get(key).cloned()
}

/// `serde_json::Value::get` with a number: the element of an array at an
/// index.
#[verifier::external_body]
fn element(v: &serde_json::Value, index: usize) -> (r: Option<serde_json::Value>)
    ensures
        opt_text(r) == json_element(json_text(*v), index),
{
    v.get(index).cloned()
}

/// `serde_json::Value::as_str`: the string that a value is.
#[verifier::external_body]
fn as_string(v: &serde_json::Value) -> (r: Option<String>)
    ensures
        opt_view(r) == json_string(json_text(*v)),
{
    v.as_str().map(String::from)
}

/// `serde_json::Value::as_bool`: the boolean that a value is.
#[verifier::external_body]
fn as_boolean(v: &serde_json::Value) -> (r: Option<bool>)
    ensures
        r == json_boolean(json_text(*v)),
{
    v.as_bool()
}

/// `serde_json::Value::as_i64`: the signed integer that a value is.
#[verifier::external_body]
fn as_integer(v: &serde_json::Value) -> (r: Option<i64>)
    ensures
        r == json_integer(json_text(*v)),
{
    v.as_i64()
}

/// `serde_json::Value::as_u64`: the unsigned integer that a value is.
#[verifier::external_body]
fn as_unsigned(v: &serde_json::Value) -> (r: Option<u64>)
    ensures
        r == json_unsigned(json_text(*v)),
{
    v.as_u64()
}

/// `serde_json::Value::as_array`: the number of elements of the array that
/// a value is.
#[verifier::external_body]
fn length(v: &serde_json::Value) -> (r: Option<usize>)
    ensures
        r == json_length(json_text(*v)),
{
    v.as_array().map(Vec::len)
}

/// `serde_json::Value::as_object`: the keys of the object that a value is.
#[verifier::external_body]
fn keys(v: &serde_json::Value) -> (r: Option<Vec<String>>)
    ensures
        match r {
            Some(k) => json_object_keys(json_text(*v)) == Some(k@.map_values(|s: String| s@)),
            None => json_object_keys(json_text(*v)).is_none(),
        },
{
    v.as_object().map(|o| o.keys().cloned().collect())
}

/// Whether the text is a JSON document.
pub open spec fn json_valid(text: Seq<char>) -> bool {
    json_parsed(text) is Some
}

/// The text of the member that the document, an object, holds under `key`.
pub open spec fn json_member(text: Seq<char>, key: Seq<char>) -> Option<Seq<char>> {
    match json_parsed(text) {
        Some(v) => json_field(v, key),
        None => None,
    }
}

/// The string that the document, an object, holds under `key`; `None` where
/// the text is no document, the document no object, the key absent or its
/// value no string.
pub open spec fn json_str(text: Seq<char>, key: Seq<char>) -> Option<Seq<char>> {
    match json_member(text, key) {
        Some(m) => json_string(m),
        None => None,
    }
}

/// The boolean that the document, an object, holds under `key`.
pub open spec fn json_bool(text: Seq<char>, key: Seq<char>) -> Option<bool> {
    match json_member(text, key) {
        Some(m) => json_boolean(m),
        None => None,
    }
}

/// The integer that the document, an object, holds under `key`, where it
/// fits 64 signed bits.
pub open spec fn json_int(text: Seq<char>, key: Seq<char>) -> Option<i64> {
    match json_member(text, key) {
        Some(m) => json_integer(m),
        None => None,
    }
}

/// The unsigned integer that the document, an object, holds under `key`,
/// where it fits 64 bits.
pub open spec fn json_uint(text: Seq<char>, key: Seq<char>) -> Option<u64> {
    match json_member(text, key) {
        Some(m) => json_unsigned(m),
        None => None,
    }
}

/// The length of the array that the document, an object, holds under `key`.
pub open spec fn json_array_len(text: Seq<char>, key: Seq<char>) -> Option<usize> {
    match json_member(text, key) {
        Some(m) => json_length(m),
        None => None,
    }
}

/// The text of the element at `index` of the array that the document holds
/// under `key`.
pub open spec fn json_array_item(text: Seq<char>, key: Seq<char>, index: usize) -> Option<
    Seq<char>,
> {
    match json_member(text, key) {
        Some(m) => json_element(m, index),
        None => None,
    }
}

/// The string at `index` of the array that the document holds under `key`.
pub open spec fn json_array_str(text: Seq<char>, key: Seq<char>, index: usize) -> Option<
    Seq<char>,
> {
    match json_array_item(text, key, index) {
        Some(e) => json_string(e),
        None => None,
    }
}

/// The string under `inner` in the object at `index` of the array that the
/// document holds under `key`.
pub open spec fn json_item_str(
    text: Seq<char>,
    key: Seq<char>,
    index: usize,
    inner: Seq<char>,
) -> Option<Seq<char>> {
    match json_array_item(text, key, index) {
        Some(e) => match json_field(e, inner) {
            Some(m) => json_string(m),
            None => None,
        },
        None => None,
    }
}

/// The keys of the document, where it is an object.
pub open spec fn json_keys(text: Seq<char>) -> Option<Seq<Seq<char>>> {
    match json_parsed(text) {
        Some(v) => json_object_keys(v),
        None => None,
    }
}

/// Whether the text parses as a JSON document.
pub fn is_json(text: &str) -> (ok: bool)
    ensures
        ok == json_valid(text@),
{
    parse(text).is_some()
}

fn member_value(text: &str, key: &str) -> (r: Option<serde_json::Value>)
    ensures
        opt_text(r) == json_member(text@, key@),
{
    match parse(text) {
        Some(v) => field(&v, key),
        None => None,
    }
}

fn item_value(text: &str, key: &str, index: usize) -> (r: Option<serde_json::Value>)
    ensures
        opt_text(r) == json_array_item(text@, key@, index),
{
    match member_value(text, key) {
        Some(m) => element(&m, index),
        None => None,
    }
}

/// The member of a document under `key`, written out.
pub fn member_json(text: &str, key: &str) -> (r: Option<String>)
    ensures
        opt_view(r) == json_member(text@, key@),
{
    match member_value(text, key) {
        Some(m) => Some(write_out(&m)),
        None => None,
    }
}

/// The string that a document holds under `key`.
pub fn str_member(text: &str, key: &str) -> (r: Option<String>)
    ensures
        opt_view(r) == json_str(text@, key@),
{
    match member_value(text, key) {
        Some(m) => as_string(&m),
        None => None,
    }
}

/// The boolean that a document holds under `key`.
pub fn bool_member(text: &str, key: &str) -> (r: Option<bool>)
    ensures
        r == json_bool(text@, key@),
{
    match member_value(text, key) {
        Some(m) => as_boolean(&m),
        None => None,
    }
}

/// The signed integer that a document holds under `key`.
pub fn int_member(text: &str, key: &str) -> (r: Option<i64>)
    ensures
        r == json_int(text@, key@),
{
    match member_value(text, key) {
        Some(m) => as_integer(&m),
        None => None,
    }
}

/// The unsigned integer that a document holds under `key`.
pub fn uint_member(text: &str, key: &str) -> (r: Option<u64>)
    ensures
        r == json_uint(text@, key@),
{
    match member_value(text, key) {
        Some(m) => as_unsigned(&m),
        None => None,
    }
}

/// The length of the array that a document holds under `key`.
pub fn array_len(text: &str, key: &str) -> (r: Option<usize>)
    ensures
        r == json_array_len(text@, key@),
{
    match member_value(text, key) {
        Some(m) => length(&m),
        None => None,
    }
}

/// The element at `index` of the array that a document holds under `key`,
/// written out.
pub fn array_item_json(text: &str, key: &str, index: usize) -> (r: Option<String>)
    ensures
        opt_view(r) == json_array_item(text@, key@, index),
{
    match item_value(text, key, index) {
        Some(e) => Some(write_out(&e)),
        None => None,
    }
}

/// The string at `index` of the array that a document holds under `key`.
pub fn array_item_str(text: &str, key: &str, index: usize) -> (r: Option<String>)
    ensures
        opt_view(r) == json_array_str(text@, key@, index),
{
    match item_value(text, key, index) {
        Some(e) => as_string(&e),
        None => None,
    }
}

/// The string under `inner` in the object at `index` of the array that a
/// document holds under `key`.
pub fn item_str(text: &str, key: &str, index: usize, inner: &str) -> (r: Option<String>)
    ensures
        opt_view(r) == json_item_str(text@, key@, index, inner@),
{
    match item_value(text, key, index) {
        Some(e) => match field(&e, inner) {
            Some(m) => as_string(&m),
            None => None,
        },
        None => None,
    }
}

/// The keys of a document that is an object.
pub fn object_keys(text: &str) -> (r: Option<Vec<String>>)
    ensures
        match r {
            Some(k) => json_keys(text@) == Some(k@.map_values(|s: String| s@)),
            None => json_keys(text@).is_none(),
        },
{
    match parse(text) {
        Some(v) => keys(&v),
        None => None,
    }
}

} // verus!
