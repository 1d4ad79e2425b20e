//! JSON documents, as `serde_json` holds them.
use crate::text::maybe;
use serde_json::Value;
use std::collections::HashMap;
use vstd::prelude::*;

verus! {

/// Trusted: the type `serde_json::Value` is opaque; [`json_of`] names what it holds.
#[verifier::external_type_specification]
#[verifier::external_body]
pub struct ExValue(serde_json::Value);

/// A JSON document. An object has no order among its members, and each key once.
pub enum Json {
    Null,
    Bool(bool),
    Integer(int),
    /// A number that is no integer of 64 bits, by the text that it is written as.
    Float(Seq<char>),
    Text(Seq<char>),
    Array(Seq<Json>),
    Object(Map<Seq<char>, Json>),
}

/// The document that a value holds.
pub uninterp spec fn json_of(value: serde_json::Value) -> Json;

/// The document that a text stands for; nothing where the text is no JSON that can be read.
pub uninterp spec fn json_document(text: Seq<char>) -> Option<Json>;

/// The compact text of a document.
pub uninterp spec fn json_text(document: Json) -> Seq<char>;

/// The object of string members that a text stands for; nothing where the text is anything else.
pub uninterp spec fn string_members(text: Seq<char>) -> Option<Map<Seq<char>, Seq<char>>>;

/// The member of an object under a key.
pub open spec fn member(document: Json, key: Seq<char>) -> Option<Json> {
    match document {
        Json::Object(members) => if members.contains_key(key) {
            Some(members[key])
        } else {
            None
        },
        _ => None,
    }
}

/// The text that a document is.
pub open spec fn as_text(document: Json) -> Option<Seq<char>> {
    match document {
        Json::Text(text) => Some(text),
        _ => None,
    }
}

/// The text member of an object under a key; nothing where there is no such object, no such
/// member, or the member is no text.
pub open spec fn text_member(document: Option<Json>, key: Seq<char>) -> Option<Seq<char>> {
    match document {
        Some(d) => match member(d, key) {
            Some(m) => as_text(m),
            None => None,
        },
        None => None,
    }
}

/// The members of an object that is written out field by field.
pub open spec fn members_of(fields: Seq<(String, Value)>) -> Map<Seq<char>, Json>
    decreases fields.len(),
{
    if fields.len() == 0 {
        Map::empty()
    } else {
        members_of(fields.drop_last()).insert(fields.last().0@, json_of(fields.last().1))
    }
}

/// No key is written twice.
pub open spec fn distinct_keys(fields: Seq<(String, Value)>) -> bool {
    forall|i: int, j: int|
        0 <= i < j < fields.len() ==> (#[trigger] fields[i]).0@ != (#[trigger] fields[j]).0@
}

/// Trusted: `serde_json::from_str` into a `serde_json::Value`. What comes out depends on the text
/// alone.
#[verifier::external_body]
pub(crate) fn parse_json(text: &str) -> (value: Option<Value>)
    ensures
        match value {
            Some(v) => json_document(text@) == Some(json_of(v)),
            None => json_document(text@) is None,
        },
{
    serde_json::from_str(text).ok()
}

/// Trusted: `serde_json::from_str` into a `HashMap<String, String>`. What comes out depends on
/// the text alone.
#[verifier::external_body]
pub(crate) fn parse_string_members(text: &str) -> (members: Option<HashMap<String, String>>)
    ensures
        members.deep_view() == string_members(text@),
{
    serde_json::from_str(text).ok()
}

/// Trusted: `serde_json::Value::get` with a string. Gives the member of an object, and nothing
/// where the value is no object or has no such member.
#[verifier::external_body]
fn json_get<'a>(value: &'a Value, key: &str) -> (found: Option<&'a Value>)
    ensures
        match found {
            Some(v) => member(json_of(*value), key@) == Some(json_of(*v)),
            None => member(json_of(*value), key@) is None,
        },
{
    value.get(key)
}

/// Trusted: `serde_json::Value::as_str`. Gives the text that the value is, and nothing where it
/// is no string.
#[verifier::external_body]
fn json_as_str<'a>(value: &'a Value) -> (text: Option<&'a str>)
    ensures
        maybe(text) == as_text(json_of(*value)),
{
    value.as_str()
}

/// Trusted: `serde_json::to_string` of a `serde_json::Value`. It fails only where a `Serialize`
/// does or a map has a key that is no string; a value has neither. Members are written in the
/// order of their keys, so the text depends on the document alone.
#[verifier::external_body]
pub(crate) fn json_to_string(value: &Value) -> (text: Option<String>)
    ensures
        maybe(text) == Some(json_text(json_of(*value))),
{
    serde_json::to_string(value).ok()
}

/// Trusted: `serde_json::Value::Null`.
#[verifier::external_body]
pub(crate) fn json_null() -> (value: Value)
    ensures
        json_of(value) == Json::Null,
{
    Value::Null
}

/// Trusted: `serde_json::Value::Bool`.
#[verifier::external_body]
pub(crate) fn json_bool(b: bool) -> (value: Value)
    ensures
        json_of(value) == Json::Bool(b),
{
    Value::Bool(b)
}

/// Trusted: `serde_json::Value::String`.
#[verifier::external_body]
pub(crate) fn json_string(text: String) -> (value: Value)
    ensures
        json_of(value) == Json::Text(text@),
{
    Value::String(text)
}

/// Trusted: `serde_json::Value::from` of an `i32`.
#[verifier::external_body]
pub(crate) fn json_int(n: i32) -> (value: Value)
    ensures
        json_of(value) == Json::Integer(n as int),
{
    Value::from(n)
}

/// Trusted: `serde_json::Value::Array` without elements.
#[verifier::external_body]
pub(crate) fn json_empty_array() -> (value: Value)
    ensures
        json_of(value) == Json::Array(seq![]),
{
    Value::Array(Vec::new())
}

/// Trusted: `serde_json::Value::Object` over a `serde_json::Map` that is collected from fields
/// with distinct keys.
#[verifier::external_body]
pub(crate) fn json_object(fields: Vec<(String, Value)>) -> (value: Value)
    requires
        distinct_keys(fields@),
    ensures
        json_of(value) == Json::Object(members_of(fields@)),
{
    Value::Object(fields.into_iter().collect())
}

/// Reads one text member out of the text of a JSON object.
pub fn read_text_member(text: &str, key: &str) -> (found: Option<String>)
    ensures
        maybe(found) == text_member(json_document(text@), key@),
{
    match parse_json(text) {
        Some(value) => match json_get(&value, key) {
            Some(inner) => match json_as_str(inner) {
                Some(t) => Some(t.to_owned()),
                None => None,
            },
            None => None,
        },
        None => None,
    }
}

/// A JSON object with one member.
pub(crate) fn object_of_one(key: &str, value: Value) -> (object: Value)
    ensures
        json_of(object) == Json::Object(Map::empty().insert(key@, json_of(value))),
{
    let fields: Vec<(String, Value)> = vec![(key.to_owned(), value)];
    proof {
        assert(fields@.drop_last() =~= Seq::empty());
        reveal_with_fuel(members_of, 2);
    }
    json_object(fields)
}

} // verus!
