//! Reading and writing the members of JSON objects that the models share.
use vstd::prelude::*;
use crate::error::TelnyxError;
use crate::json::{
    flag_at, has_key, null_at, object_flags, object_ints, object_keys, object_nulls,
    object_text, put_text, shape_error, text_at, JsonObject,
};

verus! {

/// The text of an optional string.
pub open spec fn opt_text(o: Option<String>) -> Option<Seq<char>> {
    match o {
        Some(s) => Some(s@),
        None => None,
    }
}

/// The value at a key of a map, if the key is present.
pub open spec fn lookup<V>(m: Map<Seq<char>, V>, k: Seq<char>) -> Option<V> {
    if m.contains_key(k) {
        Some(m[k])
    } else {
        None
    }
}

/// `m` with `k` bound to the text of `o`, when `o` holds a value.
pub open spec fn with_opt(m: Map<Seq<char>, Seq<char>>, k: Seq<char>, o: Option<String>) -> Map<
    Seq<char>,
    Seq<char>,
> {
    match o {
        Some(s) => m.insert(k, s@),
        None => m,
    }
}

/// The boolean at a key, `false` where the key holds none.
pub open spec fn flag_or_false(m: Map<Seq<char>, bool>, k: Seq<char>) -> bool {
    m.contains_key(k) && m[k]
}

/// Adds a string member only when the value is set: an unset field is left
/// out of the object rather than written as `null`.
pub(crate) fn put_opt_text(m: &mut JsonObject, k: &str, v: &Option<String>)
    requires
        !object_flags(*old(m)).contains_key(k@),
        !object_ints(*old(m)).contains_key(k@),
    ensures
        object_text(*final(m)) == with_opt(object_text(*old(m)), k@, *v),
        object_keys(*final(m)) == (if v.is_some() {
            object_keys(*old(m)).insert(k@)
        } else {
            object_keys(*old(m))
        }),
        object_flags(*final(m)) == object_flags(*old(m)),
        object_ints(*final(m)) == object_ints(*old(m)),
{
    match v {
        Some(s) => {
            put_text(m, k, s.clone());
            assert(object_flags(*m) =~= object_flags(*old(m)));
            assert(object_ints(*m) =~= object_ints(*old(m)));
        },
        None => {},
    }
}

/// Reads a string member that must be present.
pub(crate) fn required_text(m: &JsonObject, k: &str) -> (r: Result<String, TelnyxError>)
    ensures
        r is Ok <==> object_text(*m).contains_key(k@),
        r matches Ok(s) ==> s@ == object_text(*m)[k@],
        r is Err ==> r matches Err(TelnyxError::Parse(_)),
{
    match text_at(m, k) {
        Some(s) => Ok(s),
        None => Err(TelnyxError::Parse(shape_error(k))),
    }
}

/// An optional string member is a string, `null`, or missing.
pub open spec fn opt_text_ok(m: JsonObject, k: Seq<char>) -> bool {
    object_text(m).contains_key(k) || !object_keys(m).contains(k) || object_nulls(m).contains(k)
}

/// A boolean member with a default is a boolean, or missing.
pub open spec fn flag_ok(m: JsonObject, k: Seq<char>) -> bool {
    object_flags(m).contains_key(k) || !object_keys(m).contains(k)
}

/// Reads an optional string member: unset where it is missing or `null`, a
/// `Parse` error where it holds another type.
pub(crate) fn optional_text(m: &JsonObject, k: &str) -> (r: Result<Option<String>, TelnyxError>)
    ensures
        r is Ok <==> opt_text_ok(*m, k@),
        r matches Ok(o) ==> opt_text(o) == lookup(object_text(*m), k@),
        r is Err ==> r matches Err(TelnyxError::Parse(_)),
{
    match text_at(m, k) {
        Some(s) => Ok(Some(s)),
        None => {
            if !has_key(m, k) || null_at(m, k) {
                Ok(None)
            } else {
                Err(TelnyxError::Parse(shape_error(k)))
            }
        },
    }
}

/// Reads a boolean member that defaults to `false` where it is missing; a
/// `Parse` error where it holds another type.
pub(crate) fn optional_flag(m: &JsonObject, k: &str) -> (r: Result<bool, TelnyxError>)
    ensures
        r is Ok <==> flag_ok(*m, k@),
        r matches Ok(b) ==> b == flag_or_false(object_flags(*m), k@),
        r is Err ==> r matches Err(TelnyxError::Parse(_)),
{
    match flag_at(m, k) {
        Some(b) => Ok(b),
        None => {
            if has_key(m, k) {
                Err(TelnyxError::Parse(shape_error(k)))
            } else {
                Ok(false)
            }
        },
    }
}

} // verus!
