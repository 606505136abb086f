use vstd::prelude::*;
use crate::text::{opt_view, views_of};

verus! {

/// Whether a text parses as a JSON document. A function of the text
/// alone.
pub uninterp spec fn json_valid(s: Seq<char>) -> bool;

/// The string under a top-level key of a JSON document, or nothing
/// when the text does not parse, the document is no object, the key is
/// absent or its value is no string. A function of the text and the
/// key alone.
pub uninterp spec fn json_str_field(s: Seq<char>, key: Seq<char>) -> Option<Seq<char>>;

/// The keys, in order, of the object under a top-level key of a JSON
/// document, or nothing when the text does not parse, the document is
/// no object, the key is absent or its value is no object. A function
/// of the text and the key alone.
pub uninterp spec fn json_obj_keys(s: Seq<char>, key: Seq<char>) -> Option<Seq<Seq<char>>>;

/// The views of an optional key list.
pub open spec fn opt_keys_view(r: Option<Vec<String>>) -> Option<Seq<Seq<char>>> {
    match r {
        Some(v) => Some(views_of(v@)),
        None => None,
    }
}

/// Relies on serde_json's `from_str::<Value>`: whether the text is a
/// valid JSON document.
#[verifier::external_body]
pub(crate) fn json_is_valid(s: &str) -> (r: bool)
    ensures
        r == json_valid(s@),
{
    serde_json::from_str::<serde_json::Value>(s).is_ok()
}

/// Relies on serde_json's `from_str::<Value>`, `Value::get` and
/// `Value::as_str`: reads the string under the given top-level key.
#[verifier::external_body]
pub(crate) fn json_string_field(s: &str, key: &str) -> (r: Option<String>)
    ensures
        opt_view(r) == json_str_field(s@, key@),
{
    serde_json::from_str::<serde_json::Value>(s).ok().and_then(
        |v| v.get(key).and_then(|d| d.as_str()).map(|x| x.to_string()),
    )
}

/// Relies on serde_json's `from_str::<Value>`, `Value::get` and
/// `Value::as_object`, with the object's iterator: reads the key list
/// of the object under the given top-level key.
#[verifier::external_body]
pub(crate) fn json_object_field_keys(s: &str, key: &str) -> (r: Option<Vec<String>>)
    ensures
        opt_keys_view(r) == json_obj_keys(s@, key@),
{
    serde_json::from_str::<serde_json::Value>(s).ok().and_then(
        |v| v.get(key).and_then(|d| d.as_object()).map(
            |m| m.iter().map(|p| p.0.clone()).collect(),
        ),
    )
}

} // verus!
