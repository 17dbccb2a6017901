//! The `serde_json` backend.
//!
//! Everything in this file is taken on trust: the declarations make the
//! outside types known, the uninterpreted functions name what those types
//! hold and what the serializer writes, and each wrapper states what one
//! outside call does. The crate builds `serde_json` with `preserve_order`,
//! so a map keeps its members in the order of their insertion.

use vstd::prelude::*;
use crate::json::{Json, Members, upsert};

verus! {

/// `serde_json::Value`, as an opaque type.
#[verifier::external_type_specification]
#[verifier::external_body]
pub struct ExValue(serde_json::Value);

/// `serde_json::Map`, as an opaque type.
#[verifier::external_type_specification]
#[verifier::external_body]
#[verifier::reject_recursive_types(K)]
#[verifier::reject_recursive_types(V)]
pub struct ExMap<K, V>(serde_json::Map<K, V>);

/// `serde_json::Error`, as an opaque type.
#[verifier::external_type_specification]
#[verifier::external_body]
pub struct ExError(serde_json::Error);

/// The document that a `serde_json::Value` holds: `Null`, `Bool`, `String`
/// and `Array` as the variants of the same meaning, an `Object` with its
/// members in iteration order, a `Number` by the text written for it.
pub uninterp spec fn json_doc(value: serde_json::Value) -> Json;

/// The members of a `serde_json::Map`, in iteration order.
pub uninterp spec fn object_members(object: serde_json::Map<String, serde_json::Value>) -> Members;

/// The text that `serde_json::to_string_pretty` writes for a document.
pub uninterp spec fn pretty_text(doc: Json) -> Seq<char>;

/// `serde_json::Map::new`: the new map has no members.
#[verifier::external_body]
pub(crate) fn new_object() -> (object: serde_json::Map<String, serde_json::Value>)
    ensures
        object_members(object) == Seq::<(Seq<char>, Json)>::empty(),
{
    serde_json::Map::new()
}

/// `serde_json::Map::insert`, which is `IndexMap::insert` underneath: a key
/// that is present keeps its place and takes the new value, a new key goes
/// last. The value that was replaced is dropped.
#[verifier::external_body]
pub(crate) fn insert_member(
    object: &mut serde_json::Map<String, serde_json::Value>,
    key: &str,
    value: serde_json::Value,
)
    ensures
        object_members(*final(object)) == upsert(
            object_members(*old(object)),
            key@,
            json_doc(value),
        ),
{
    object.insert(key.to_string(), value);
}

/// `serde_json::Value::Bool`: the value holds the flag.
#[verifier::external_body]
pub(crate) fn bool_value(flag: bool) -> (value: serde_json::Value)
    ensures
        json_doc(value) == Json::Bool(flag),
{
    serde_json::Value::Bool(flag)
}

/// `serde_json::Value::String`: the value holds a copy of the text.
#[verifier::external_body]
pub(crate) fn text_value(text: &str) -> (value: serde_json::Value)
    ensures
        json_doc(value) == Json::Text(text@),
{
    serde_json::Value::String(text.to_string())
}

/// `serde_json::Value::Array`: the value holds the items, in order.
#[verifier::external_body]
pub(crate) fn list_value(items: Vec<serde_json::Value>) -> (value: serde_json::Value)
    ensures
        json_doc(value) == Json::List(items@.map_values(|item: serde_json::Value| json_doc(item))),
{
    serde_json::Value::Array(items)
}

/// `serde_json::Value::Object`: the value holds the map's members, in order.
#[verifier::external_body]
pub(crate) fn object_value(object: serde_json::Map<String, serde_json::Value>) -> (value:
    serde_json::Value)
    ensures
        json_doc(value) == Json::Object(object_members(object)),
{
    serde_json::Value::Object(object)
}

/// `serde_json::to_string_pretty` on a `Value`: it succeeds, and the text
/// depends on the document alone.
///
/// It succeeds because nothing on the way can fail: a `Value` serializes
/// itself without an error of its own, the keys of its objects are strings,
/// a number is an integer or a finite float, and the text is written into a
/// `Vec<u8>`, which raises no I/O error.
#[verifier::external_body]
pub(crate) fn to_pretty_text(value: &serde_json::Value) -> (outcome: Result<
    String,
    serde_json::Error,
>)
    ensures
        outcome is Ok,
        outcome matches Ok(text) ==> text@ == pretty_text(json_doc(*value)),
{
    serde_json::to_string_pretty(value)
}

} // verus!
