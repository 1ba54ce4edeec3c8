//! The JSON values that the catalogue's web API answers with. A value is held
//! as `serde_json::Value`; what the library reads of one goes through the
//! trusted items of this file.

use vstd::prelude::*;

verus! {

/// `serde_json::Value`, a parsed JSON value, carried through unopened.
#[verifier::external_type_specification]
#[verifier::external_body]
pub struct ExJsonValue(serde_json::Value);

/// `serde_json::Error`, the error of a failed parse.
#[verifier::external_type_specification]
#[verifier::external_body]
pub struct ExJsonError(serde_json::Error);

/// The variant of a JSON value; a boolean carries its value.
#[derive(Clone, Copy, Debug, PartialEq, Eq, Structural)]
pub enum JsonKind {
    Null,
    Bool(bool),
    Number,
    String,
    Array,
    Object,
}

/// The value that `serde_json::from_str` parses from a text, or `None` where
/// it fails.
pub uninterp spec fn json_from_str(text: Seq<char>) -> Option<serde_json::Value>;

/// The variant of a value (`serde_json::Value`'s own enum).
pub uninterp spec fn json_kind_of(v: serde_json::Value) -> JsonKind;

/// What `value[key]` gives: the member of an object under `key`.
pub uninterp spec fn json_field(v: serde_json::Value, key: Seq<char>) -> serde_json::Value;

/// The elements of an array value, in order.
pub uninterp spec fn json_items(v: serde_json::Value) -> Seq<serde_json::Value>;

/// Calls `serde_json::from_str::<Value>`. Claims only that the result is the
/// named parse of the text: `Ok` exactly where that parse succeeds.
#[verifier::external_body]
pub fn parse_json(text: &str) -> (r: Result<serde_json::Value, serde_json::Error>)
    ensures
        r is Ok <==> json_from_str(text@) is Some,
        r matches Ok(v) ==> json_from_str(text@) == Some(v),
{
    serde_json::from_str::<serde_json::Value>(text)
}

/// Tells the variants of `serde_json::Value` apart, and reads a boolean's
/// value. Claims that the result is the named variant of the value.
#[verifier::external_body]
pub fn json_kind(v: &serde_json::Value) -> (r: JsonKind)
    ensures
        r == json_kind_of(*v),
{
    match v {
        serde_json::Value::Null => JsonKind::Null,
        serde_json::Value::Bool(b) => JsonKind::Bool(*b),
        serde_json::Value::Number(_) => JsonKind::Number,
        serde_json::Value::String(_) => JsonKind::String,
        serde_json::Value::Array(_) => JsonKind::Array,
        serde_json::Value::Object(_) => JsonKind::Object,
    }
}

/// Calls `<Value as Index<&str>>::index` and clones what it finds. Claims that
/// the result is the named member, and, as the source shows, that indexing
/// anything but an object gives `Null`.
#[verifier::external_body]
pub fn json_get(v: &serde_json::Value, key: &str) -> (r: serde_json::Value)
    ensures
        r == json_field(*v, key@),
        json_kind_of(*v) != JsonKind::Object ==> json_kind_of(r) == JsonKind::Null,
{
    v[key].clone()
}

/// Takes the elements out of an array value (`Value::Array`'s vector).
/// Claims that they are the named elements of the value.
#[verifier::external_body]
pub fn json_into_items(v: serde_json::Value) -> (r: Vec<serde_json::Value>)
    requires
        json_kind_of(v) == JsonKind::Array,
    ensures
        r@ == json_items(v),
{
    match v {
        serde_json::Value::Array(items) => items,
        _ => Vec::new(),
    }
}

/// The list of integers that `serde_json::from_str::<Vec<i64>>` parses from a
/// text, or `None` where it fails.
pub uninterp spec fn json_i64_list(text: Seq<char>) -> Option<Seq<i64>>;

/// Calls `serde_json::from_str::<Vec<i64>>` on a list of ids. Claims only
/// that the result is the named parse of the text: `Some` exactly where that
/// parse succeeds.
#[verifier::external_body]
pub fn parse_id_list(text: &str) -> (r: Option<Vec<i64>>)
    ensures
        r is None <==> json_i64_list(text@) is None,
        r matches Some(v) ==> json_i64_list(text@) == Some(v@),
{
    serde_json::from_str::<Vec<i64>>(text).ok()
}

/// What `serde_json::Value::as_i64` gives: the value of an integer that fits
/// in an `i64`, else `None`.
pub uninterp spec fn json_i64_of(v: serde_json::Value) -> Option<i64>;

/// Calls `serde_json::Value::as_i64`. Claims only that the result is the
/// named reading of the value, and, as the source shows, that a value other
/// than a number gives `None`.
#[verifier::external_body]
pub fn json_as_i64(v: &serde_json::Value) -> (r: Option<i64>)
    ensures
        r == json_i64_of(*v),
        json_kind_of(*v) != JsonKind::Number ==> r is None,
{
    v.as_i64()
}

} // verus!
