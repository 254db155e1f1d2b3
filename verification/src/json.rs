//! JSON documents, read through `serde_json`.
//!
//! A parsed document stays a `serde_json::Value`. Contracts speak of it
//! through [`JsonDoc`], a mathematical picture of what the value holds. The
//! functions marked `external_body` here are the calls into `serde_json`;
//! their contracts are taken from that crate's source and are not proved.

use vstd::prelude::*;

verus! {

/// `serde_json::Value`, a parsed JSON value. Nothing of its inside is known
/// here; what it holds is spoken of through [`json_doc`].
#[verifier::external_type_specification]
#[verifier::external_body]
pub struct ExJsonValue(serde_json::Value);

/// `serde_json::Error`, what a failed parse returns. Nothing is read from it.
#[verifier::external_type_specification]
#[verifier::external_body]
pub struct ExJsonError(serde_json::Error);

/// What a JSON value holds, as far as this library reads it: the kind of the
/// value, the characters of a string, the elements of an array and the
/// members of an object. Which number a number is, is left out.
pub enum JsonDoc {
    Null,
    Bool(bool),
    Number,
    Text(Seq<char>),
    Array(Seq<JsonDoc>),
    Object(Map<Seq<char>, JsonDoc>),
}

/// What the value `v` holds.
pub uninterp spec fn json_doc(v: serde_json::Value) -> JsonDoc;

/// What `serde_json::from_str` makes of `text` when it reads a `Value` from
/// it: the document that the value returned holds, or `None` where the call
/// fails.
pub uninterp spec fn json_parse(text: Seq<char>) -> Option<JsonDoc>;

/// The member `key` of `d`, where `d` is an object that has one.
pub open spec fn doc_member(d: JsonDoc, key: Seq<char>) -> Option<JsonDoc> {
    match d {
        JsonDoc::Object(members) => if members.contains_key(key) {
            Some(members[key])
        } else {
            None
        },
        _ => None,
    }
}

/// The element at `index` of `d`, where `d` is an array that long.
pub open spec fn doc_element(d: JsonDoc, index: nat) -> Option<JsonDoc> {
    match d {
        JsonDoc::Array(elements) => if index < elements.len() {
            Some(elements[index as int])
        } else {
            None
        },
        _ => None,
    }
}

/// Reads `text` as one JSON value.
///
/// Wraps `serde_json::from_str::<Value>`. The contract names the outcome:
/// the call succeeds exactly where `json_parse` gives a document, and the
/// value returned holds that document.
#[verifier::external_body]
pub(crate) fn parse(text: &str) -> (r: Result<serde_json::Value, serde_json::Error>)
    ensures
        match r {
            Ok(v) => json_parse(text@) == Some(json_doc(v)),
            Err(_) => json_parse(text@) is None,
        },
{
    serde_json::from_str(text)
}

/// The member `key` of an object.
///
/// Wraps `Value::get` with a string index: it looks `key` up where the value
/// is an object and gives `None` for every other kind of value and for a key
/// that the object lacks.
#[verifier::external_body]
pub(crate) fn member<'a>(v: &'a serde_json::Value, key: &str) -> (r: Option<&'a serde_json::Value>)
    ensures
        match r {
            Some(m) => doc_member(json_doc(*v), key@) == Some(json_doc(*m)),
            None => doc_member(json_doc(*v), key@) is None,
        },
{
    v.get(key)
}

/// The element at `index` of an array.
///
/// Wraps `Value::get` with a `usize` index: it gives the element where the
/// value is an array and `index` is within it, and `None` for every other
/// kind of value and for an index past the end.
#[verifier::external_body]
pub(crate) fn element<'a>(v: &'a serde_json::Value, index: usize) -> (r: Option<
    &'a serde_json::Value,
>)
    ensures
        match r {
            Some(e) => doc_element(json_doc(*v), index as nat) == Some(json_doc(*e)),
            None => doc_element(json_doc(*v), index as nat) is None,
        },
{
    v.get(index)
}

/// The characters of a string value.
///
/// Wraps `Value::as_str`: `Some` with the string's contents where the value
/// is a string, `None` for every other kind.
#[verifier::external_body]
pub(crate) fn text_of<'a>(v: &'a serde_json::Value) -> (r: Option<&'a str>)
    ensures
        match r {
            Some(t) => json_doc(*v) == JsonDoc::Text(t@),
            None => !(json_doc(*v) is Text),
        },
{
    v.as_str()
}

} // verus!
