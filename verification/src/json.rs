//! JSON documents as the contracts see them, and the calls into `serde_json`.
//!
//! JSON text is read and written by `serde_json`, and documents are held in
//! its `Value` and `Map`. Verus cannot look inside either, so the contracts
//! speak of a mathematical document, [`Json`], and every function in this
//! module that has no verified body states what one `serde_json` item does to
//! such documents. Nothing in this module is proved: it is the ground that
//! the rest of the crate stands on.
//!
//! `serde_json` is used with its default features. A number is then held as
//! a `u64`, as a negative `i64` or in binary floating point, and a `Map`
//! keeps one value for each key, in the order of the keys.

use serde_json::Value;
use vstd::prelude::*;

verus! {

/// A JSON document as a mathematical value.
pub enum Json {
    Null,
    Bool(bool),
    /// A number that is held as an integer. `serde_json` holds the integers
    /// from `i64::MIN` to `u64::MAX` this way.
    Integer(int),
    /// A number that is held in binary floating point, named by the 64 bits
    /// that encode it. No contract in this crate reads those bits.
    Float(u64),
    Text(Seq<char>),
    Array(Seq<Json>),
    Object(Map<Seq<char>, Json>),
}

/// `serde_json::Value`, a JSON document. What one holds is [`json_of`] it.
#[verifier::external_type_specification]
#[verifier::external_body]
pub struct ExValue(serde_json::Value);

/// `serde_json::Map`, the members of a JSON object. What one holds is
/// [`members_of`] it.
#[verifier::external_type_specification]
#[verifier::external_body]
#[verifier::reject_recursive_types(K)]
#[verifier::reject_recursive_types(V)]
pub struct ExMap<K, V>(serde_json::Map<K, V>);

/// `serde_json::Error`, which says why a text or a value was refused. The
/// engine does not look into it.
#[verifier::external_type_specification]
#[verifier::external_body]
pub struct ExError(serde_json::Error);

/// The document that a `serde_json::Value` holds.
pub uninterp spec fn json_of(value: serde_json::Value) -> Json;

/// The members that a `serde_json::Map` holds, by key.
pub uninterp spec fn members_of(object: serde_json::Map<String, serde_json::Value>) -> Map<Seq<char>, Json>;

/// The document that `serde_json::from_slice` reads from a text, `None`
/// where it reports an error.
pub uninterp spec fn parsed(text: Seq<u8>) -> Option<Json>;

/// The text that `serde_json::to_vec` writes for a document, `None` where it
/// reports an error.
pub uninterp spec fn written(document: Json) -> Option<Seq<u8>>;

/// The members of an object that has none.
pub open spec fn no_members() -> Map<Seq<char>, Json> {
    Map::empty()
}

/// The documents that a sequence of values holds, in the same order.
pub open spec fn documents(values: Seq<Value>) -> Seq<Json> {
    values.map_values(|value: Value| json_of(value))
}

/// `serde_json::from_slice`, asked for a `Value`. It either reads one whole
/// document from the text or reports an error, and which of the two, and
/// which document, depends on the text alone.
#[verifier::external_body]
pub(crate) fn parse(text: &[u8]) -> (r: Result<Value, serde_json::Error>)
    ensures
        r is Ok <==> parsed(text@) is Some,
        r matches Ok(value) ==> parsed(text@) == Some(json_of(value)),
{
    serde_json::from_slice::<Value>(text)
}

/// `serde_json::to_vec`, given a `Value`. What it writes depends on the
/// document alone.
#[verifier::external_body]
pub(crate) fn to_bytes(value: &Value) -> (r: Result<Vec<u8>, serde_json::Error>)
    ensures
        r is Ok <==> written(json_of(*value)) is Some,
        r matches Ok(text) ==> written(json_of(*value)) == Some(text@),
{
    serde_json::to_vec(value)
}

/// Takes the map out of a `Value::Object`; any other variant gives `None`.
#[verifier::external_body]
pub(crate) fn into_object(value: Value) -> (r: Option<serde_json::Map<String, Value>>)
    ensures
        r is Some <==> json_of(value) is Object,
        r matches Some(object) ==> json_of(value) == Json::Object(members_of(object)),
{
    match value {
        Value::Object(object) => Some(object),
        _ => None,
    }
}

/// `serde_json::Map::new`: a map without members.
#[verifier::external_body]
pub(crate) fn object_new() -> (object: serde_json::Map<String, Value>)
    ensures
        members_of(object) == no_members(),
{
    serde_json::Map::new()
}

/// `serde_json::Map::insert`: the key now leads to the given value, the other
/// members stay, and the value that the key led to before is returned.
#[verifier::external_body]
pub(crate) fn object_insert(
    object: &mut serde_json::Map<String, Value>,
    key: String,
    value: Value,
) -> (r: Option<Value>)
    ensures
        members_of(*final(object)) == members_of(*old(object)).insert(key@, json_of(value)),
        r is Some <==> members_of(*old(object)).dom().contains(key@),
        r matches Some(before) ==> json_of(before) == members_of(*old(object))[key@],
{
    object.insert(key, value)
}

/// `serde_json::Map::get`: the value that the key leads to, if there is one.
#[verifier::external_body]
pub(crate) fn object_get<'a>(object: &'a serde_json::Map<String, Value>, key: &str) -> (r: Option<
    &'a Value,
>)
    ensures
        r is Some <==> members_of(*object).dom().contains(key@),
        r matches Some(value) ==> json_of(*value) == members_of(*object)[key@],
{
    object.get(key)
}

/// `serde_json::Map::remove`: the key leaves the map, the other members stay,
/// and the value that the key led to is returned.
#[verifier::external_body]
pub(crate) fn object_remove(object: &mut serde_json::Map<String, Value>, key: &str) -> (r: Option<
    Value,
>)
    ensures
        members_of(*final(object)) == members_of(*old(object)).remove(key@),
        r is Some <==> members_of(*old(object)).dom().contains(key@),
        r matches Some(value) ==> json_of(value) == members_of(*old(object))[key@],
{
    object.remove(key)
}

/// `serde_json::Value::as_str`: the text of a string, `None` for any other
/// document.
#[verifier::external_body]
pub(crate) fn as_text<'a>(value: &'a Value) -> (r: Option<&'a str>)
    ensures
        r is Some <==> json_of(*value) is Text,
        r matches Some(text) ==> json_of(*value) == Json::Text(text@),
{
    value.as_str()
}

/// `serde_json::Value::as_u64`: the number, where the document is an integer
/// that is not negative, else `None`.
#[verifier::external_body]
pub(crate) fn as_unsigned(value: &Value) -> (r: Option<u64>)
    ensures
        r == match json_of(*value) {
            Json::Integer(n) if 0 <= n <= u64::MAX => Some(n as u64),
            _ => None,
        },
{
    value.as_u64()
}

/// `Value::from` for a `u64`: the number as an integer.
#[verifier::external_body]
pub(crate) fn from_unsigned(n: u64) -> (value: Value)
    ensures
        json_of(value) == Json::Integer(n as int),
{
    Value::from(n)
}

/// `Value::from` for a `String`: a string with that text.
#[verifier::external_body]
pub(crate) fn from_text(text: String) -> (value: Value)
    ensures
        json_of(value) == Json::Text(text@),
{
    Value::from(text)
}

/// `Value::from` for a `Vec<Value>`: an array of the same documents in the
/// same order.
#[verifier::external_body]
pub(crate) fn from_array(items: Vec<Value>) -> (value: Value)
    ensures
        json_of(value) == Json::Array(documents(items@)),
{
    Value::from(items)
}

/// `Value::from` for a `serde_json::Map`: an object with the same members.
#[verifier::external_body]
pub(crate) fn from_object(object: serde_json::Map<String, Value>) -> (value: Value)
    ensures
        json_of(value) == Json::Object(members_of(object)),
{
    Value::from(object)
}

/// `serde_json::from_value`, asked for a `String`: the text of a string, an
/// error for any other document.
#[verifier::external_body]
pub(crate) fn into_text(value: Value) -> (r: Result<String, serde_json::Error>)
    ensures
        r is Ok <==> json_of(value) is Text,
        r matches Ok(text) ==> json_of(value) == Json::Text(text@),
{
    serde_json::from_value::<String>(value)
}

/// `serde_json::from_value`, asked for `()`: succeeds on `null` and on no
/// other document.
#[verifier::external_body]
pub(crate) fn into_unit(value: Value) -> (r: Result<(), serde_json::Error>)
    ensures
        r is Ok <==> json_of(value) is Null,
{
    serde_json::from_value::<()>(value)
}

} // verus!
