//! The untyped JSON tree that payloads arrive as, and the few reads and
//! writes on it that decoding and encoding need.

use vstd::prelude::*;

verus! {

#[verifier::external_type_specification]
#[verifier::external_body]
pub struct ExValue(serde_json::Value);

#[verifier::external_type_specification]
#[verifier::external_body]
#[verifier::reject_recursive_types(K)]
#[verifier::reject_recursive_types(V)]
pub struct ExObject<K, V>(serde_json::Map<K, V>);

/// A JSON object: members by key.
pub type JsonObject = serde_json::Map<String, serde_json::Value>;

/// The member that a JSON value holds under a key, if it is an object with
/// that key.
pub uninterp spec fn field_of(v: serde_json::Value, key: Seq<char>) -> Option<serde_json::Value>;

/// The text of a JSON value that is a string.
pub uninterp spec fn text_of(v: serde_json::Value) -> Option<Seq<char>>;

/// Whether a JSON value is an object.
pub uninterp spec fn is_object_value(v: serde_json::Value) -> bool;

/// The members of a JSON object, by key.
pub uninterp spec fn members_of(m: JsonObject) -> Map<Seq<char>, serde_json::Value>;

/// The text held under a key, if the member is there and is a string.
pub open spec fn text_field(v: serde_json::Value, key: Seq<char>) -> Option<Seq<char>> {
    match field_of(v, key) {
        Some(m) => text_of(m),
        None => None,
    }
}

/// Relies on `serde_json::Value::get` with a `&str` index: the member under
/// `key` of an object, `None` for a missing key or a value that is no object.
#[verifier::external_body]
pub(crate) fn get_field(v: &serde_json::Value, key: &str) -> (r: Option<serde_json::Value>)
    ensures
        r == field_of(*v, key@),
{
    v.get(key).cloned()
}

/// Relies on `serde_json::Value::as_str`: the text of a string value.
#[verifier::external_body]
pub(crate) fn as_text(v: &serde_json::Value) -> (r: Option<String>)
    ensures
        match r {
            Some(s) => text_of(*v) == Some(s@),
            None => text_of(*v) is None,
        },
{
    v.as_str().map(String::from)
}

/// Relies on `serde_json::Value::is_object`.
#[verifier::external_body]
pub(crate) fn is_object(v: &serde_json::Value) -> (r: bool)
    ensures
        r == is_object_value(*v),
{
    v.is_object()
}

/// Relies on `serde_json::Map::new`: a map with no members.
#[verifier::external_body]
pub(crate) fn new_object() -> (r: JsonObject)
    ensures
        members_of(r).dom().is_empty(),
{
    serde_json::Map::new()
}

/// Relies on `serde_json::Map::insert`: the member under `key` is set to
/// `value`, a member already there is replaced, the others stay.
#[verifier::external_body]
pub(crate) fn insert_member(
    m: &mut JsonObject,
    key: String,
    value: serde_json::Value,
)
    ensures
        members_of(*final(m)) == members_of(*old(m)).insert(key@, value),
{
    m.insert(key, value);
}

/// Relies on the variant `serde_json::Value::Object` and on `Value::get`,
/// which looks a key up in the map of an object.
#[verifier::external_body]
pub(crate) fn object_value(m: JsonObject) -> (r: serde_json::Value)
    ensures
        is_object_value(r),
        forall|k: Seq<char>|
            #[trigger] field_of(r, k) == if members_of(m).contains_key(k) {
                Some(members_of(m)[k])
            } else {
                None
            },
{
    serde_json::Value::Object(m)
}

/// Relies on the variant `serde_json::Value::String` and on `Value::as_str`,
/// which gives its text back.
#[verifier::external_body]
pub(crate) fn string_value(s: String) -> (r: serde_json::Value)
    ensures
        text_of(r) == Some(s@),
{
    serde_json::Value::String(s)
}

} // verus!
