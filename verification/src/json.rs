//! JSON values as the payload decoder sees them.
//!
//! A delivery's bytes are parsed by `serde_json`; the parsed document
//! is mirrored into the library's own [`Json`] type, whose plain values
//! the verified decoder can inspect.  Parsing is named by [`json_of`]:
//! the library states nothing about the JSON grammar itself, only that
//! parsing is a function of the bytes alone.

use vstd::prelude::*;
use crate::text::str_eq;

verus! {

/// One JSON value.  Numbers are carried as their decimal rendering:
/// the job message wire format gives numbers no meaning, so the
/// decoder only ever needs to tell them apart from strings and
/// objects.
#[derive(Debug, PartialEq)]
pub enum Json {
    Null,
    Bool(bool),
    Num(String),
    Str(String),
    Arr(Vec<Json>),
    Obj(Vec<(String, Json)>),
}

/// What parsing a byte sequence as one JSON document yields, in the
/// library's own JSON type: `None` exactly on malformed input.
pub uninterp spec fn json_of(bytes: Seq<u8>) -> Option<Json>;

/// An opaque handle on `serde_json`'s parsed document, needed to
/// declare the conversion below.
#[verifier::external_type_specification]
#[verifier::external_body]
pub struct ExValue(serde_json::Value);

/// Mirrors a parsed `serde_json::Value` into the library's [`Json`]
/// type, variant by variant; numbers keep their decimal rendering.  It
/// exists only for the body of [`parse_json`], which trusts
/// `serde_json`'s parse as a whole.
#[verifier::external_body]
fn json_from_value(v: serde_json::Value) -> Json {
    match v {
        serde_json::Value::Null => Json::Null,
        serde_json::Value::Bool(b) => Json::Bool(b),
        serde_json::Value::Number(n) => Json::Num(n.to_string()),
        serde_json::Value::String(s) => Json::Str(s),
        serde_json::Value::Array(a) => Json::Arr(a.into_iter().map(json_from_value).collect()),
        serde_json::Value::Object(m) => Json::Obj(
            m.into_iter().map(|(k, w)| (k, json_from_value(w))).collect(),
        ),
    }
}

/// Relies on `serde_json::from_slice`: parses one JSON document,
/// failing exactly on malformed input.  The result is a function of
/// the bytes alone, which [`json_of`] names.
#[verifier::external_body]
pub(crate) fn parse_json(bytes: &[u8]) -> (r: Option<Json>)
    ensures
        r == json_of(bytes@),
{
    match serde_json::from_slice::<serde_json::Value>(bytes) {
        Ok(v) => Some(json_from_value(v)),
        Err(_) => None,
    }
}

/// First value of the given key among an object's entries, if any.
pub open spec fn lookup_obj(entries: Seq<(String, Json)>, key: Seq<char>) -> Option<Json>
    decreases entries.len(),
{
    if entries.len() <= 0 {
        None
    } else if entries[0].0@ == key {
        Some(entries[0].1)
    } else {
        lookup_obj(entries.drop_first(), key)
    }
}

/// A key that matches no entry is never found.
pub proof fn lemma_lookup_obj_absent(entries: Seq<(String, Json)>, key: Seq<char>)
    requires
        forall|k: int| 0 <= k < entries.len() ==> entries[k].0@ != key,
    ensures
        lookup_obj(entries, key) is None,
    decreases entries.len(),
{
    if entries.len() > 0 {
        lemma_lookup_obj_absent(entries.drop_first(), key);
    }
}

/// A first match at position `i` is what the lookup returns.
pub proof fn lemma_lookup_obj_found(entries: Seq<(String, Json)>, key: Seq<char>, i: int)
    requires
        0 <= i < entries.len(),
        entries[i].0@ == key,
        forall|k: int| 0 <= k < i ==> entries[k].0@ != key,
    ensures
        lookup_obj(entries, key) == Some(entries[i].1),
    decreases i,
{
    if i > 0 {
        lemma_lookup_obj_found(entries.drop_first(), key, i - 1);
    }
}

/// First value of the given key in an object, or `None` if the object
/// holds no such key.
pub(crate) fn get<'a>(entries: &'a Vec<(String, Json)>, key: &str) -> (r: Option<&'a Json>)
    ensures
        match r {
            Some(v) => lookup_obj(entries@, key@) == Some(*v),
            None => lookup_obj(entries@, key@) is None,
        },
{
    let n = entries.len();
    let mut i: usize = 0;
    while i < n
        invariant
            n == entries.len(),
            i <= n,
            forall|k: int| 0 <= k < i ==> entries@[k].0@ != key@,
        decreases n - i,
    {
        if str_eq(entries[i].0.as_str(), key) {
            proof {
                lemma_lookup_obj_found(entries@, key@, i as int);
            }
            return Some(&entries[i].1);
        }
        i = i + 1;
    }
    proof {
        lemma_lookup_obj_absent(entries@, key@);
    }
    None
}

} // verus!
