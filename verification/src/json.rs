//! JSON documents, read and written by `serde_json`.
//!
//! Parsing and printing are left to `serde_json`. This module gives its values
//! a mathematical model, [`Json`], and states over that model what each of the
//! calls into it does. None of those statements is proved here.

use vstd::prelude::*;
use serde_json::{Map as JsonMap, Value};

verus! {

/// A JSON document as a mathematical value.
pub enum Json {
    Null,
    Bool(bool),
    /// A number, held as the characters that `serde_json` prints for it.
    Number(Seq<char>),
    Text(Seq<char>),
    Array(Seq<Json>),
    Object(Map<Seq<char>, Json>),
}

impl Json {
    /// The text stored under `key`, if this is an object that has the key and
    /// holds a string there.
    pub open spec fn text_member(self, key: Seq<char>) -> Option<Seq<char>> {
        match self {
            Json::Object(members) => if members.contains_key(key) {
                match members[key] {
                    Json::Text(text) => Some(text),
                    _ => None,
                }
            } else {
                None
            },
            _ => None,
        }
    }
}

/// `serde_json::Value`, opaque to the verifier.
#[verifier::external_type_specification]
#[verifier::external_body]
pub struct ExValue(Value);

/// `serde_json::Map`, opaque to the verifier.
#[verifier::external_type_specification]
#[verifier::external_body]
#[verifier::reject_recursive_types(K)]
#[verifier::reject_recursive_types(V)]
pub struct ExJsonMap<K, V>(JsonMap<K, V>);

/// `serde_json::Error`, opaque to the verifier.
#[verifier::external_type_specification]
#[verifier::external_body]
pub struct ExJsonError(serde_json::Error);

/// The document that a `serde_json::Value` holds.
pub uninterp spec fn json_of(value: Value) -> Json;

/// The members that a `serde_json::Map` holds, by key.
pub uninterp spec fn members_of(object: JsonMap<String, Value>) -> Map<Seq<char>, Json>;

/// What `serde_json::from_str` makes of a text: the document it reads, or
/// nothing where it rejects the text.
pub uninterp spec fn json_parsed(text: Seq<char>) -> Option<Json>;

/// The compact text that `serde_json` prints for a document: no white space
/// between tokens, and the members of an object in the order of their keys.
pub uninterp spec fn json_written(json: Json) -> Seq<char>;

/// `serde_json::from_str` at the type `Value`: parsing depends on the text
/// alone, and a value that comes back holds the document named by
/// [`json_parsed`].
#[verifier::external_body]
pub(crate) fn parse(text: &str) -> (parsed: Result<Value, serde_json::Error>)
    ensures
        parsed is Ok <==> json_parsed(text@) is Some,
        parsed matches Ok(value) ==> json_parsed(text@) == Some(json_of(value)),
{
    serde_json::from_str::<Value>(text)
}

/// `Value::get` with a string index: the member under `key` where the value is
/// an object that has the key, nothing otherwise.
#[verifier::external_body]
pub(crate) fn member<'a>(value: &'a Value, key: &str) -> (found: Option<&'a Value>)
    ensures
        found is Some <==> (json_of(*value) matches Json::Object(members) && members.contains_key(
            key@,
        )),
        found matches Some(inner) ==> json_of(*value)->Object_0[key@] == json_of(*inner),
{
    value.get(key)
}

/// `Value::as_str`: the text where the value is a string, nothing otherwise.
#[verifier::external_body]
pub(crate) fn as_text<'a>(value: &'a Value) -> (text: Option<&'a str>)
    ensures
        text is Some <==> json_of(*value) is Text,
        text matches Some(t) ==> json_of(*value) == Json::Text(t@),
{
    value.as_str()
}

/// The variant `Value::String`: a JSON string of these characters.
#[verifier::external_body]
pub(crate) fn text_value(text: String) -> (value: Value)
    ensures
        json_of(value) == Json::Text(text@),
{
    Value::String(text)
}

/// The variant `Value::Bool`: the JSON value `true` or `false`.
#[verifier::external_body]
pub(crate) fn bool_value(flag: bool) -> (value: Value)
    ensures
        json_of(value) == Json::Bool(flag),
{
    Value::Bool(flag)
}

/// The variant `Value::Array`: the elements keep their order.
#[verifier::external_body]
pub(crate) fn array_value(items: Vec<Value>) -> (value: Value)
    ensures
        json_of(value) == Json::Array(items@.map_values(|item: Value| json_of(item))),
{
    Value::Array(items)
}

/// `serde_json::Map::new`: a map without members.
#[verifier::external_body]
pub(crate) fn new_object() -> (object: JsonMap<String, Value>)
    ensures
        members_of(object) == (Map::<Seq<char>, Json>::empty()),
{
    JsonMap::new()
}

/// `serde_json::Map::insert`: the key holds the new value afterwards, whether
/// or not it was present, and no other member changes.
#[verifier::external_body]
pub(crate) fn insert_member(object: &mut JsonMap<String, Value>, key: String, value: Value)
    ensures
        members_of(*final(object)) == members_of(*old(object)).insert(key@, json_of(value)),
{
    object.insert(key, value);
}

/// The variant `Value::Object`: a JSON object with the members of the map.
#[verifier::external_body]
pub(crate) fn object_value(object: JsonMap<String, Value>) -> (value: Value)
    ensures
        json_of(value) == Json::Object(members_of(object)),
{
    Value::Object(object)
}

/// `Value`'s `Display` impl through `to_string`: the compact text of the
/// document. The map behind an object keeps its members sorted by key (the
/// crate is built without `preserve_order`), so the text depends on the
/// document alone, not on the order in which it was put together.
#[verifier::external_body]
pub(crate) fn to_text(value: &Value) -> (text: String)
    ensures
        text@ == json_written(json_of(*value)),
{
    value.to_string()
}

} // verus!
