//! JSON values, as `serde_json` represents them, seen from verified code.
//!
//! A `serde_json::Value` is opaque here: the library carries it, and what it
//! needs to know of one is given by the names below, each tied to the
//! `serde_json` function or constructor that it stands for.

use vstd::prelude::*;

verus! {

/// `serde_json::Value`, carried through the library as an opaque value.
#[verifier::external_type_specification]
#[verifier::external_body]
pub struct ExJsonValue(serde_json::Value);

/// `serde_json::Map`, the map of a JSON object.
#[verifier::external_type_specification]
#[verifier::external_body]
#[verifier::reject_recursive_types(K)]
#[verifier::reject_recursive_types(V)]
pub struct ExJsonMap<K, V>(serde_json::Map<K, V>);

/// `serde_json::Error`, the error of a failed (de)serialisation.
#[verifier::external_type_specification]
#[verifier::external_body]
pub struct ExJsonError(serde_json::Error);

/// What writing a JSON value as text gives: the text, or the error.
pub type JsonText = Result<String, serde_json::Error>;

/// The JSON object map type that `serde_json` and `rmcp` use.
pub type JsonObject = serde_json::Map<String, serde_json::Value>;

/// The entries of a JSON object map, each key taken by its characters.
pub uninterp spec fn json_map_entries(m: JsonObject) -> Map<Seq<char>, serde_json::Value>;

/// The JSON string `Value::String(s)`.
pub uninterp spec fn json_string_value(s: Seq<char>) -> serde_json::Value;

/// The JSON object `Value::Object(m)` for a map `m` with the given entries.
pub uninterp spec fn json_object_value(entries: Map<Seq<char>, serde_json::Value>) -> serde_json::Value;

/// The JSON array `Value::Array(v)` for a vector `v` with the given items.
pub uninterp spec fn json_array_value(items: Seq<serde_json::Value>) -> serde_json::Value;

/// The compact JSON text that `serde_json::to_string` writes for a value.
pub uninterp spec fn json_compact_text(v: serde_json::Value) -> Seq<char>;

/// The indented JSON text that `serde_json::to_string_pretty` writes for a value.
pub uninterp spec fn json_pretty_text(v: serde_json::Value) -> Seq<char>;

/// Whether a value is a JSON object, that is `Value::Object` of some map.
pub open spec fn is_json_object(v: serde_json::Value) -> bool {
    exists|entries: Map<Seq<char>, serde_json::Value>|
        entries.dom().finite() && v == json_object_value(entries)
}

/// `serde_json::Map::new`: a map with no entries.
#[verifier::external_body]
pub(crate) fn json_map_new() -> (map: JsonObject)
    ensures
        json_map_entries(map) =~= Map::empty(),
{
    serde_json::Map::new()
}

/// `serde_json::Map::insert`: afterwards `key` maps to `value`, every other
/// entry is kept (the value that `key` had before, if any, is dropped).
#[verifier::external_body]
pub(crate) fn json_map_insert(map: &mut JsonObject, key: String, value: serde_json::Value)
    ensures
        json_map_entries(*final(map)) == json_map_entries(*old(map)).insert(key@, value),
{
    map.insert(key, value);
}

/// `Clone::clone` on a JSON object map: a map with the same entries.
#[verifier::external_body]
pub(crate) fn json_map_clone(map: &JsonObject) -> (copy: JsonObject)
    ensures
        json_map_entries(copy) == json_map_entries(*map),
{
    map.clone()
}

/// `Clone::clone` on a JSON value: an equal value.
#[verifier::external_body]
pub(crate) fn json_value_clone(value: &serde_json::Value) -> (copy: serde_json::Value)
    ensures
        copy == *value,
{
    value.clone()
}

/// `Value::String`: the JSON string with the characters of `s`, which is
/// no JSON object.
#[verifier::external_body]
pub(crate) fn json_string(s: String) -> (value: serde_json::Value)
    ensures
        value == json_string_value(s@),
        !is_json_object(value),
{
    serde_json::Value::String(s)
}

/// `Value::Object`: the JSON object with the entries of `map`.
#[verifier::external_body]
pub(crate) fn json_object(map: JsonObject) -> (value: serde_json::Value)
    ensures
        value == json_object_value(json_map_entries(map)),
{
    serde_json::Value::Object(map)
}

/// `Value::Array`: the JSON array with the items of `items`, in order, which
/// is no JSON object.
#[verifier::external_body]
pub(crate) fn json_array(items: Vec<serde_json::Value>) -> (value: serde_json::Value)
    ensures
        value == json_array_value(items@),
        !is_json_object(value),
{
    serde_json::Value::Array(items)
}

/// `Value::as_object`: the map of a JSON object, and `None` for every other
/// kind of value. A map's entries are finite.
#[verifier::external_body]
pub(crate) fn json_as_object(value: &serde_json::Value) -> (object: Option<&JsonObject>)
    ensures
        object matches Some(map) ==> {
            &&& json_map_entries(*map).dom().finite()
            &&& *value == json_object_value(json_map_entries(*map))
        },
        object is None ==> !is_json_object(*value),
{
    value.as_object()
}

/// `serde_json::to_string` on a `Value`: the compact JSON text. Writing a
/// `Value` into memory cannot fail (its `Serialize` impl reports no error of
/// its own, and the keys of its maps are strings), so the result is `Ok`.
#[verifier::external_body]
pub(crate) fn json_to_compact(value: &serde_json::Value) -> (written: JsonText)
    ensures
        written is Ok,
        written matches Ok(s) ==> s@ == json_compact_text(*value),
{
    serde_json::to_string(value)
}

/// `serde_json::to_string_pretty` on a `Value`: the indented JSON text. As for
/// `serde_json::to_string`, writing a `Value` into memory cannot fail.
#[verifier::external_body]
pub(crate) fn json_to_pretty(value: &serde_json::Value) -> (written: JsonText)
    ensures
        written is Ok,
        written matches Ok(s) ==> s@ == json_pretty_text(*value),
{
    serde_json::to_string_pretty(value)
}

} // verus!
