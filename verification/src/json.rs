//! JSON as `serde_json` reads it, and the little of it that the library looks at.

use vstd::prelude::*;

verus! {

/// A JSON document as a mathematical value. A number is held as a text;
/// nothing here reads one.
pub enum Json {
    Null,
    Bool(bool),
    Number(Seq<char>),
    Text(Seq<char>),
    List(Seq<Json>),
    Object(Map<Seq<char>, Json>),
}

/// `serde_json::Value`, carried as it is; nothing here looks inside one but
/// through the functions below.
#[verifier::external_type_specification]
#[verifier::external_body]
pub struct ExValue(serde_json::Value);

/// `serde_json::Error`, which says why a text is no JSON. It is only told
/// apart from success.
#[verifier::external_type_specification]
#[verifier::external_body]
pub struct ExError(serde_json::Error);

/// The document that a `serde_json::Value` holds.
pub uninterp spec fn json_of(v: serde_json::Value) -> Json;

/// The document that `serde_json::from_slice` reads from a text, if it reads one.
pub uninterp spec fn json_read(text: Seq<u8>) -> Option<Json>;

/// The documents that a sequence of values holds, in order.
pub open spec fn jsons_of(vs: Seq<serde_json::Value>) -> Seq<Json> {
    Seq::new(vs.len(), |i: int| json_of(vs[i]))
}

/// Calls `serde_json::from_slice` for a `Value`. Taken on trust: whether a
/// document is read, and which, depends on the bytes alone.
#[verifier::external_body]
pub(crate) fn read_json(text: &[u8]) -> (r: Result<serde_json::Value, serde_json::Error>)
    ensures
        match r {
            Ok(v) => json_read(text@) == Some(json_of(v)),
            Err(_) => json_read(text@) is None,
        },
{
    serde_json::from_slice::<serde_json::Value>(text)
}

/// Calls `Value::as_array`. Taken on trust: it gives the items of a list, in
/// their order, and nothing for any other document.
#[verifier::external_body]
pub(crate) fn as_list(v: &serde_json::Value) -> (r: Option<&Vec<serde_json::Value>>)
    ensures
        match r {
            Some(items) => json_of(*v) == Json::List(jsons_of(items@)),
            None => !(json_of(*v) is List),
        },
{
    v.as_array()
}

/// Calls `Value::as_str`. Taken on trust: it gives the characters of a
/// string, and nothing for any other document.
#[verifier::external_body]
pub(crate) fn as_text(v: &serde_json::Value) -> (r: Option<&str>)
    ensures
        match r {
            Some(s) => json_of(*v) == Json::Text(s@),
            None => !(json_of(*v) is Text),
        },
{
    v.as_str()
}

/// Calls `Value::get` with a key. Taken on trust: it gives the member of an
/// object under that key, and nothing where the document is no object or has
/// no such member.
#[verifier::external_body]
pub(crate) fn member<'a>(v: &'a serde_json::Value, key: &str) -> (r: Option<&'a serde_json::Value>)
    ensures
        match r {
            Some(m) => json_of(*v) is Object && json_of(*v)->Object_0.contains_key(key@)
                && json_of(*v)->Object_0[key@] == json_of(*m),
            None => !(json_of(*v) is Object && json_of(*v)->Object_0.contains_key(key@)),
        },
{
    v.get(key)
}

/// Calls `Value::is_null`. Taken on trust: it says whether the document is
/// `null`.
#[verifier::external_body]
pub(crate) fn is_null(v: &serde_json::Value) -> (r: bool)
    ensures
        r == (json_of(*v) is Null),
{
    v.is_null()
}

/// Calls `Value::clone`. Taken on trust: the copy holds the same document.
#[verifier::external_body]
pub(crate) fn copy_of(v: &serde_json::Value) -> (r: serde_json::Value)
    ensures
        json_of(r) == json_of(*v),
{
    v.clone()
}

} // verus!
