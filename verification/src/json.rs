//! A mathematical model of the structured messages the remote endpoint
//! sends, and the trusted boundary to the JSON parser that reads them.
//!
//! Inbound frames are generic JSON documents. The library models such a
//! document as [`JsonModel`], an abstract tree over plain values, and reads
//! real parsed values only through the trusted accessors below, each of whose
//! contracts is stated over that model.

use vstd::prelude::*;

verus! {

/// The abstract shape of a parsed JSON document.
///
/// Numbers are never read by the session logic, so the model keeps only the
/// fact that a value is a number. Objects are keyed by their field names;
/// when a document repeats a key, the model holds the value the parser keeps.
pub enum JsonModel {
    Null,
    Bool(bool),
    Num,
    Str(Seq<char>),
    Arr(Seq<JsonModel>),
    Obj(Map<Seq<char>, JsonModel>),
}

/// The model of a parsed value.
///
/// `serde_json::Value` is opaque here; this name ties each runtime value to
/// the abstract tree it represents. The trusted accessors below say how the
/// parser's observations relate to it.
pub uninterp spec fn value_model(v: serde_json::Value) -> JsonModel;

/// What parsing a text yields: `None` when the text is not valid JSON,
/// otherwise the model of the parsed document.
pub uninterp spec fn json_of(s: Seq<char>) -> Option<JsonModel>;

#[verifier::external_type_specification]
#[verifier::external_body]
pub struct ExJsonValue(serde_json::Value);

/// Relies on `serde_json::from_str::<Value>`: parsing is a function of the
/// characters of the text alone; it fails exactly on invalid JSON.
#[verifier::external_body]
pub(crate) fn parse_value(s: &str) -> (r: Option<serde_json::Value>)
    ensures
        match r {
            Some(v) => json_of(s@) == Some(value_model(v)),
            None => json_of(s@) is None,
        },
{
    serde_json::from_str::<serde_json::Value>(s).ok()
}

/// Relies on `serde_json::Value::get` with a string index: on an object it
/// looks the key up, on anything else it returns `None`.
#[verifier::external_body]
pub(crate) fn get_field<'a>(v: &'a serde_json::Value, key: &str) -> (r: Option<&'a serde_json::Value>)
    ensures
        match value_model(*v) {
            JsonModel::Obj(m) => match r {
                Some(f) => m.contains_key(key@) && value_model(*f) == m[key@],
                None => !m.contains_key(key@),
            },
            _ => r is None,
        },
{
    v.get(key)
}

/// Relies on `serde_json::Value::get` with a usize index: on an array it
/// returns the element when the index is in bounds, on anything else `None`.
#[verifier::external_body]
pub(crate) fn get_element<'a>(v: &'a serde_json::Value, i: usize) -> (r: Option<&'a serde_json::Value>)
    ensures
        match value_model(*v) {
            JsonModel::Arr(a) => match r {
                Some(f) => i < a.len() && value_model(*f) == a[i as int],
                None => i >= a.len(),
            },
            _ => r is None,
        },
{
    v.get(i)
}

/// Relies on `serde_json::Value::as_bool`: `Some` exactly on a boolean.
#[verifier::external_body]
pub(crate) fn value_as_bool(v: &serde_json::Value) -> (r: Option<bool>)
    ensures
        match value_model(*v) {
            JsonModel::Bool(b) => r == Some(b),
            _ => r is None,
        },
{
    v.as_bool()
}

/// Relies on `serde_json::Value::as_str`: `Some` exactly on a string, and
/// the returned slice is that string.
#[verifier::external_body]
pub(crate) fn value_as_str<'a>(v: &'a serde_json::Value) -> (r: Option<&'a str>)
    ensures
        match value_model(*v) {
            JsonModel::Str(s) => match r {
                Some(t) => t@ == s,
                None => false,
            },
            _ => r is None,
        },
{
    v.as_str()
}

/// Looking a key up in the model of a document: `Some` only on an object
/// that has the key.
pub open spec fn spec_field(j: JsonModel, key: Seq<char>) -> Option<JsonModel> {
    match j {
        JsonModel::Obj(m) => if m.contains_key(key) {
            Some(m[key])
        } else {
            None
        },
        _ => None,
    }
}

/// Indexing into the model of a document: `Some` only on an array with the
/// index in bounds.
pub open spec fn spec_element(j: JsonModel, i: int) -> Option<JsonModel> {
    match j {
        JsonModel::Arr(a) => if 0 <= i < a.len() {
            Some(a[i])
        } else {
            None
        },
        _ => None,
    }
}

} // verus!
