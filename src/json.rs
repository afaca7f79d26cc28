//! The JSON objects that travel on the wire, as seen through `serde_json`.
//!
//! A `serde_json::Map` is opaque to proofs; what the library reads of one is
//! named here: its keys, and its string, boolean and integer members.
use vstd::prelude::*;

verus! {

#[verifier::external_type_specification]
#[verifier::external_body]
pub struct ExJsonValue(serde_json::Value);

#[verifier::external_type_specification]
#[verifier::external_body]
#[verifier::reject_recursive_types(K)]
#[verifier::reject_recursive_types(V)]
pub struct ExJsonMap<K, V>(serde_json::Map<K, V>);

#[verifier::external_type_specification]
#[verifier::external_body]
pub struct ExJsonError(serde_json::Error);

/// A JSON object, as `serde_json` represents it.
pub type JsonObject = serde_json::Map<String, serde_json::Value>;

/// The keys present in an object, whatever their values.
pub uninterp spec fn object_keys(m: serde_json::Map<String, serde_json::Value>) -> Set<Seq<char>>;

/// The members of an object whose value is a JSON string.
pub uninterp spec fn object_text(m: serde_json::Map<String, serde_json::Value>) -> Map<Seq<char>, Seq<char>>;

/// The members of an object whose value is a JSON boolean.
pub uninterp spec fn object_flags(m: serde_json::Map<String, serde_json::Value>) -> Map<Seq<char>, bool>;

/// The members of an object whose value is an integer that fits in `i64`.
pub uninterp spec fn object_ints(m: serde_json::Map<String, serde_json::Value>) -> Map<Seq<char>, int>;

/// The keys of an object whose value is itself a JSON object.
pub uninterp spec fn object_children(m: serde_json::Map<String, serde_json::Value>) -> Set<Seq<char>>;

/// The keys of an object whose value is `null`.
pub uninterp spec fn object_nulls(m: serde_json::Map<String, serde_json::Value>) -> Set<Seq<char>>;

/// The object held at a key, where the value there is a JSON object.
pub uninterp spec fn child_object(m: serde_json::Map<String, serde_json::Value>, k: Seq<char>) -> Option<serde_json::Map<String, serde_json::Value>>;

/// The elements of the array held at a key, where the value there is a JSON
/// array.
pub uninterp spec fn child_array(m: serde_json::Map<String, serde_json::Value>, k: Seq<char>) -> Option<Seq<serde_json::Value>>;

/// The members of a value, where it is a JSON object.
pub uninterp spec fn value_object(v: serde_json::Value) -> Option<serde_json::Map<String, serde_json::Value>>;

/// The document that a JSON text denotes.
pub uninterp spec fn json_value(s: Seq<char>) -> serde_json::Value;

/// Whether a text is one JSON document.
pub uninterp spec fn is_json_text(s: Seq<char>) -> bool;

/// Relies on serde_json::Map::new: the new object has no members.
#[verifier::external_body]
pub(crate) fn new_object() -> (r: JsonObject)
    ensures
        object_keys(r) == Set::<Seq<char>>::empty(),
        object_text(r).dom() == Set::<Seq<char>>::empty(),
        object_flags(r).dom() == Set::<Seq<char>>::empty(),
        object_ints(r).dom() == Set::<Seq<char>>::empty(),
        object_children(r) == Set::<Seq<char>>::empty(),
{
    serde_json::Map::new()
}

/// Relies on serde_json::Map::insert: a member with a string value replaces
/// whatever the key held.
#[verifier::external_body]
pub(crate) fn put_text(m: &mut JsonObject, k: &str, v: String)
    ensures
        object_keys(*final(m)) == object_keys(*old(m)).insert(k@),
        object_text(*final(m)) == object_text(*old(m)).insert(k@, v@),
        object_flags(*final(m)) == object_flags(*old(m)).remove(k@),
        object_ints(*final(m)) == object_ints(*old(m)).remove(k@),
        object_children(*final(m)) == object_children(*old(m)).remove(k@),
{
    m.insert(k.to_string(), serde_json::Value::String(v));
}

/// Relies on serde_json::Map::insert: a member with a boolean value replaces
/// whatever the key held.
#[verifier::external_body]
pub(crate) fn put_flag(m: &mut JsonObject, k: &str, v: bool)
    ensures
        object_keys(*final(m)) == object_keys(*old(m)).insert(k@),
        object_text(*final(m)) == object_text(*old(m)).remove(k@),
        object_flags(*final(m)) == object_flags(*old(m)).insert(k@, v),
        object_ints(*final(m)) == object_ints(*old(m)).remove(k@),
        object_children(*final(m)) == object_children(*old(m)).remove(k@),
{
    m.insert(k.to_string(), serde_json::Value::Bool(v));
}

/// Relies on serde_json::Map::get and Value::as_str: the string value at a key.
#[verifier::external_body]
pub(crate) fn text_at(m: &JsonObject, k: &str) -> (r: Option<String>)
    ensures
        r.is_some() == object_text(*m).contains_key(k@),
        r.is_some() ==> r.unwrap()@ == object_text(*m)[k@],
{
    m.get(k).and_then(serde_json::Value::as_str).map(String::from)
}

/// Relies on serde_json::Map::get and Value::as_bool: the boolean value at a key.
#[verifier::external_body]
pub(crate) fn flag_at(m: &JsonObject, k: &str) -> (r: Option<bool>)
    ensures
        r.is_some() == object_flags(*m).contains_key(k@),
        r.is_some() ==> r.unwrap() == object_flags(*m)[k@],
{
    m.get(k).and_then(serde_json::Value::as_bool)
}

/// Relies on serde_json::Map::get and Value::as_i64: the integer value at a key.
#[verifier::external_body]
pub(crate) fn int_at(m: &JsonObject, k: &str) -> (r: Option<i64>)
    ensures
        r.is_some() == object_ints(*m).contains_key(k@),
        r.is_some() ==> r.unwrap() as int == object_ints(*m)[k@],
{
    m.get(k).and_then(serde_json::Value::as_i64)
}

/// Relies on serde_json::Map::get and Value::as_object: a copy of the object
/// at a key.
#[verifier::external_body]
pub(crate) fn object_at(m: &JsonObject, k: &str) -> (r: Option<JsonObject>)
    ensures
        r.is_some() == object_children(*m).contains(k@),
        r == child_object(*m, k@),
{
    m.get(k).and_then(serde_json::Value::as_object).cloned()
}

/// Relies on serde_json::Map::get and Value::as_array: a copy of the elements
/// of the array at a key.
#[verifier::external_body]
pub(crate) fn array_at(m: &JsonObject, k: &str) -> (r: Option<Vec<serde_json::Value>>)
    ensures
        r.is_some() == child_array(*m, k@).is_some(),
        r matches Some(a) ==> a@ == child_array(*m, k@).unwrap(),
{
    m.get(k).and_then(serde_json::Value::as_array).cloned()
}

/// Relies on serde_json::Map::contains_key: whether a key is present.
#[verifier::external_body]
pub(crate) fn has_key(m: &JsonObject, k: &str) -> (r: bool)
    ensures
        r == object_keys(*m).contains(k@),
{
    m.contains_key(k)
}

/// Relies on serde_json::Map::get and Value::is_null: whether the value at a
/// key is `null`.
#[verifier::external_body]
pub(crate) fn null_at(m: &JsonObject, k: &str) -> (r: bool)
    ensures
        r == object_nulls(*m).contains(k@),
{
    m.get(k).is_some_and(serde_json::Value::is_null)
}

/// Relies on serde_json::Value::as_object: the members of a value that is a
/// JSON object.
#[verifier::external_body]
pub(crate) fn as_object(v: &serde_json::Value) -> (r: Option<JsonObject>)
    ensures
        r == value_object(*v),
{
    v.as_object().cloned()
}

/// Relies on serde_json::from_str: a text is read as one JSON document.
#[verifier::external_body]
pub(crate) fn parse_json(s: &str) -> (r: Result<serde_json::Value, serde_json::Error>)
    ensures
        r.is_ok() == is_json_text(s@),
        r matches Ok(v) ==> v == json_value(s@),
{
    serde_json::from_str(s)
}

/// Relies on serde::de::Error::custom for serde_json::Error: an error that
/// reports a JSON document of an unexpected shape.
#[verifier::external_body]
pub(crate) fn shape_error(what: &str) -> (r: serde_json::Error) {
    <serde_json::Error as serde::de::Error>::custom(what)
}

} // verus!
