//! JSON documents, read with `serde_json`.
//!
//! A parsed document stays a `serde_json::Value`. Contracts speak of it as a
//! tree of plain values, `JsonTree`, which `json_tree` names.

use vstd::prelude::*;

verus! {

/// `serde_json::Value`, a parsed JSON value. It is only carried; what it holds
/// is read through the wrappers below.
#[verifier::external_type_specification]
#[verifier::external_body]
pub struct ExJsonValue(serde_json::Value);

/// `serde_json::Error`, why bytes are no JSON document. It is only told apart
/// from success.
#[verifier::external_type_specification]
#[verifier::external_body]
pub struct ExJsonError(serde_json::Error);

/// What a JSON value holds, as far as this library reads it: a string, an
/// array, an object, or anything else (null, a boolean, a number).
pub enum JsonTree {
    Text(Seq<char>),
    List(Seq<JsonTree>),
    Object(Map<Seq<char>, JsonTree>),
    Other,
}

/// The tree that a `serde_json::Value` holds.
pub uninterp spec fn json_tree(v: serde_json::Value) -> JsonTree;

/// The tree that `serde_json::from_slice` reads from `bytes`, if they are a
/// JSON document.
pub uninterp spec fn json_document(bytes: Seq<u8>) -> Option<JsonTree>;

/// The member of an object under `key`; nothing for a missing key and for a
/// value that is no object.
pub open spec fn tree_member(t: JsonTree, key: Seq<char>) -> Option<JsonTree> {
    match t {
        JsonTree::Object(m) => if m.contains_key(key) {
            Some(m[key])
        } else {
            None
        },
        _ => None,
    }
}

/// Calls `serde_json::from_slice` for a `Value`. It fails exactly when the
/// bytes are no JSON document; the contract names the tree of the value it
/// gives.
#[verifier::external_body]
pub(crate) fn parse(bytes: &[u8]) -> (r: Result<serde_json::Value, serde_json::Error>)
    ensures
        match r {
            Ok(v) => json_document(bytes@) == Some(json_tree(v)),
            Err(_) => json_document(bytes@) is None,
        },
{
    serde_json::from_slice::<serde_json::Value>(bytes)
}

/// Calls `Value::get` with a string index: the member under `key` where the
/// value is an object that has the key, nothing otherwise.
#[verifier::external_body]
pub(crate) fn member<'a>(v: &'a serde_json::Value, key: &str) -> (r: Option<&'a serde_json::Value>)
    ensures
        match r {
            Some(c) => tree_member(json_tree(*v), key@) == Some(json_tree(*c)),
            None => tree_member(json_tree(*v), key@) is None,
        },
{
    v.get(key)
}

/// Calls `Value::as_array`: the elements where the value is an array, nothing
/// otherwise.
#[verifier::external_body]
pub(crate) fn items<'a>(v: &'a serde_json::Value) -> (r: Option<&'a Vec<serde_json::Value>>)
    ensures
        match r {
            Some(a) => json_tree(*v) == JsonTree::List(a@.map_values(|x: serde_json::Value| json_tree(x))),
            None => !(json_tree(*v) is List),
        },
{
    v.as_array()
}

/// Calls `Value::as_str`: the string where the value is one, nothing otherwise.
#[verifier::external_body]
pub(crate) fn text<'a>(v: &'a serde_json::Value) -> (r: Option<&'a str>)
    ensures
        match r {
            Some(s) => json_tree(*v) == JsonTree::Text(s@),
            None => !(json_tree(*v) is Text),
        },
{
    v.as_str()
}

} // verus!
