//! JSON objects as `serde_json` holds them, and the calls through which this
//! crate parses, reads and builds them.

use serde_json::Value;
use vstd::prelude::*;

verus! {

/// `serde_json::Value`, any JSON value. The verifier sees of it only what the
/// names below say.
#[verifier::external_type_specification]
#[verifier::external_body]
pub struct ExValue(serde_json::Value);

/// `serde_json::Map`, the entries of a JSON object.
#[verifier::external_type_specification]
#[verifier::external_body]
#[verifier::reject_recursive_types(K)]
#[verifier::reject_recursive_types(V)]
pub struct ExObject<K, V>(serde_json::Map<K, V>);

/// `serde_json::Error`, which says why a text is not the JSON asked for.
#[verifier::external_type_specification]
#[verifier::external_body]
pub struct ExError(serde_json::Error);

/// A JSON object: values by their keys.
pub type JsonObject = serde_json::Map<String, Value>;

/// The entries of `object`: each key with the value that stands under it.
pub uninterp spec fn object_fields(object: JsonObject) -> Map<Seq<char>, Value>;

/// The text of `value` where it is a JSON string; `None` for every other
/// kind of value.
pub uninterp spec fn json_text(value: Value) -> Option<Seq<char>>;

/// The number that `value` holds where it is a JSON number that is an unsigned
/// integer of 64 bits; `None` for every other value.
pub uninterp spec fn json_u64(value: Value) -> Option<u64>;

/// The entries of the JSON object that `serde_json` reads from `body`, the
/// last value of a key that comes twice; `None` where it reads none, because
/// `body` is not the text of one JSON object or goes beyond what the parser
/// takes.
pub uninterp spec fn parsed_object(body: Seq<u8>) -> Option<Map<Seq<char>, Value>>;

/// `serde_json::from_slice` into a JSON object. The result depends on the
/// bytes alone: the object that they are the text of, with white space around
/// it at most, or an error.
#[verifier::external_body]
pub(crate) fn parse_object(body: &[u8]) -> (parsed: Result<JsonObject, serde_json::Error>)
    ensures
        match parsed {
            Ok(object) => parsed_object(body@) == Some(object_fields(object)),
            Err(_) => parsed_object(body@) is None,
        },
{
    serde_json::from_slice(body)
}

/// `serde_json::Map::remove`: takes the entry under `key` out of the object
/// and returns its value, if there was one. The other entries stay.
#[verifier::external_body]
pub(crate) fn object_remove(object: &mut JsonObject, key: &str) -> (removed: Option<Value>)
    ensures
        object_fields(*final(object)) == object_fields(*old(object)).remove(key@),
        match removed {
            Some(value) => object_fields(*old(object)).dom().contains(key@) && object_fields(
                *old(object),
            )[key@] == value,
            None => !object_fields(*old(object)).dom().contains(key@),
        },
{
    object.remove(key)
}

/// `serde_json::Map::insert`: puts `value` under `key`, in place of the value
/// that stood there if there was one. The other entries stay.
#[verifier::external_body]
pub(crate) fn object_insert(object: &mut JsonObject, key: String, value: Value)
    ensures
        object_fields(*final(object)) == object_fields(*old(object)).insert(key@, value),
{
    object.insert(key, value);
}

/// `serde_json::Map::contains_key`: whether the object has an entry under
/// `key`.
#[verifier::external_body]
pub(crate) fn object_contains_key(object: &JsonObject, key: &str) -> (found: bool)
    ensures
        found == object_fields(*object).dom().contains(key@),
{
    object.contains_key(key)
}

/// `Clone::clone` of a JSON object: an object with the same entries.
#[verifier::external_body]
pub(crate) fn object_clone(object: &JsonObject) -> (copy: JsonObject)
    ensures
        object_fields(copy) == object_fields(*object),
{
    object.clone()
}

/// `serde_json::Value::as_str`: the text of a JSON string, and `None` for any
/// other value.
#[verifier::external_body]
pub(crate) fn value_as_str(value: &Value) -> (text: Option<&str>)
    ensures
        match text {
            Some(s) => json_text(*value) == Some(s@),
            None => json_text(*value) is None,
        },
{
    value.as_str()
}

/// `serde_json::Value::as_u64`: the number of a JSON number that is an
/// unsigned integer of 64 bits, and `None` for any other value.
#[verifier::external_body]
pub(crate) fn value_as_u64(value: &Value) -> (number: Option<u64>)
    ensures
        number == json_u64(*value),
{
    value.as_u64()
}

/// `Value::from` on a `String`: the JSON string with that text.
#[verifier::external_body]
pub(crate) fn value_from_string(text: String) -> (value: Value)
    ensures
        json_text(value) == Some(text@),
{
    Value::from(text)
}

/// `Value::from` on a `u64`: the JSON number with that value.
#[verifier::external_body]
pub(crate) fn value_from_u64(number: u64) -> (value: Value)
    ensures
        json_u64(value) == Some(number),
{
    Value::from(number)
}

} // verus!
