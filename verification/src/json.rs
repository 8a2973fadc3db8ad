//! The loosely typed argument bag of a tool call, as `serde_json` holds it.
//!
//! Nothing in this file is proved. Each item states what `serde_json` does,
//! and the dispatcher is verified against these statements.

use vstd::prelude::*;

verus! {

/// `serde_json::Value`, carried through as an opaque value.
#[verifier::external_type_specification]
#[verifier::external_body]
pub struct ExJsonValue(serde_json::Value);

/// `serde_json::Map`, carried through as an opaque value.
#[verifier::external_type_specification]
#[verifier::external_body]
#[verifier::reject_recursive_types(K)]
#[verifier::reject_recursive_types(V)]
pub struct ExJsonMap<K, V>(serde_json::Map<K, V>);

/// The text of a JSON value: the characters of a JSON string, and nothing
/// for a value of any other kind. This is what `serde_json::Value::as_str`
/// returns.
pub uninterp spec fn value_text(value: serde_json::Value) -> Option<Seq<char>>;

/// What a JSON object holds, as far as text goes: its keys, and under each
/// key the text of the value stored there (see [`value_text`]).
pub uninterp spec fn object_texts(object: serde_json::Map<String, serde_json::Value>) -> Map<
    Seq<char>,
    Option<Seq<char>>,
>;

/// `serde_json::Value::as_str` returns the string slice of a JSON string
/// and `None` for every other kind of value.
pub assume_specification[ serde_json::Value::as_str ](value: &serde_json::Value) -> (text: Option<
    &str,
>)
    ensures
        match text {
            Some(s) => value_text(*value) == Some(s@),
            None => value_text(*value) is None,
        },
;

/// Looks `key` up with `serde_json::Map::get`: the value stored under the
/// key, or `None` if the object has no such key.
#[verifier::external_body]
pub(crate) fn object_get<'a>(
    object: &'a serde_json::Map<String, serde_json::Value>,
    key: &str,
) -> (found: Option<&'a serde_json::Value>)
    ensures
        match found {
            Some(value) => object_texts(*object).contains_key(key@) && object_texts(*object)[key@]
                == value_text(*value),
            None => !object_texts(*object).contains_key(key@),
        },
{
    object.get(key)
}

} // verus!
