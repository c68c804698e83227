//! The request envelope and the checks on a response envelope.

use crate::error::{ErrorKind, ErrorKindView, ResponseFault, RpcErrorView};
use crate::json::{
    as_text, as_unsigned, documents, from_array, from_object, from_text, from_unsigned,
    into_object, into_text, into_unit, json_of, members_of, no_members, object_insert,
    object_new, object_remove, parse, parsed, to_bytes, written, Json,
};
use crate::rpc_error::{json_value_to_rpc_error, rpc_error_in};
use serde_json::Value;
use vstd::prelude::*;

verus! {

/// The request that calls `method` with `params` under `id`: an object with
/// the four members `jsonrpc`, `id`, `method` and `params`, the parameters
/// as an array in the order given.
pub open spec fn request_envelope(id: u64, method: Seq<char>, params: Seq<Json>) -> Json {
    Json::Object(
        no_members().insert("jsonrpc"@, Json::Text("2.0"@)).insert(
            "id"@,
            Json::Integer(id as int),
        ).insert("method"@, Json::Text(method)).insert("params"@, Json::Array(params)),
    )
}

/// The text of the request, `None` where it cannot be written.
pub open spec fn request_text(id: u64, method: Seq<char>, params: Seq<Json>) -> Option<Seq<u8>> {
    written(request_envelope(id, method, params))
}

/// The `jsonrpc` member is there and is the string `2.0`.
pub open spec fn has_version_2(members: Map<Seq<char>, Json>) -> bool {
    members.dom().contains("jsonrpc"@) && members["jsonrpc"@] == Json::Text("2.0"@)
}

/// The `id` member is there and is the integer `id`.
pub open spec fn has_id(members: Map<Seq<char>, Json>, id: u64) -> bool {
    members.dom().contains("id"@) && members["id"@] == Json::Integer(id as int)
}

/// The outcome of a response that is not accepted.
pub open spec fn rejected(fault: ResponseFault) -> Result<Json, ErrorKindView> {
    Err(ErrorKindView::ResponseError(fault))
}

/// The outcome of a response that reports an error of the remote end.
pub open spec fn remote_error(error: RpcErrorView) -> Result<Json, ErrorKindView> {
    Err(ErrorKindView::JsonRpcError(error))
}

/// What the members of a response object amount to, for a request that went
/// out under `expected_id`. The checks come in this order: the version, the
/// id, an `error` member, a `result` member. An `error` member decides the
/// outcome whether or not a `result` stands beside it.
pub open spec fn checked_result(members: Map<Seq<char>, Json>, expected_id: u64) -> Result<
    Json,
    ErrorKindView,
> {
    if !has_version_2(members) {
        rejected(ResponseFault::WrongVersion)
    } else if !has_id(members, expected_id) {
        rejected(ResponseFault::IdMismatch)
    } else if members.dom().contains("error"@) {
        match rpc_error_in(members["error"@]) {
            Ok(error) => remote_error(error),
            Err(fault) => rejected(fault),
        }
    } else if members.dom().contains("result"@) {
        Ok(members["result"@])
    } else {
        rejected(ResponseFault::NoResult)
    }
}

/// The members of a response document, which has to be an object.
pub open spec fn members_in(document: Json) -> Result<Map<Seq<char>, Json>, ResponseFault> {
    match document {
        Json::Object(members) => Ok(members),
        _ => Err(ResponseFault::NotAnObject),
    }
}

/// The members of the response that a text holds.
pub open spec fn response_members(text: Seq<u8>) -> Result<Map<Seq<char>, Json>, ResponseFault> {
    match parsed(text) {
        Some(document) => members_in(document),
        None => Err(ResponseFault::InvalidJson),
    }
}

/// What a response text amounts to, for a request that went out under
/// `expected_id`.
pub open spec fn response_outcome(text: Seq<u8>, expected_id: u64) -> Result<Json, ErrorKindView> {
    match response_members(text) {
        Ok(members) => checked_result(members, expected_id),
        Err(fault) => rejected(fault),
    }
}

/// The string that a result has to be where the method returns a string.
pub open spec fn text_in(result: Json) -> Result<Seq<char>, ResponseFault> {
    match result {
        Json::Text(text) => Ok(text),
        _ => Err(ResponseFault::WrongResultType),
    }
}

/// The `null` that a result has to be where the method returns nothing.
pub open spec fn unit_in(result: Json) -> Result<(), ResponseFault> {
    match result {
        Json::Null => Ok(()),
        _ => Err(ResponseFault::WrongResultType),
    }
}

/// What the result of a check says, as a mathematical value.
pub open spec fn outcome_of(r: Result<Value, ErrorKind>) -> Result<Json, ErrorKindView> {
    match r {
        Ok(value) => Ok(json_of(value)),
        Err(kind) => Err(kind@),
    }
}

/// The members that a result holds, as a mathematical value.
pub open spec fn members_result_of(
    r: Result<serde_json::Map<String, Value>, ResponseFault>,
) -> Result<Map<Seq<char>, Json>, ResponseFault> {
    match r {
        Ok(object) => Ok(members_of(object)),
        Err(fault) => Err(fault),
    }
}

/// The four keys of an envelope are four different strings.
proof fn lemma_envelope_keys_differ()
    ensures
        "jsonrpc"@ != "id"@,
        "jsonrpc"@ != "error"@,
        "jsonrpc"@ != "result"@,
        "id"@ != "error"@,
        "id"@ != "result"@,
        "error"@ != "result"@,
{
    reveal_strlit("jsonrpc");
    reveal_strlit("id");
    reveal_strlit("error");
    reveal_strlit("result");
    assert("jsonrpc"@.len() == 7);
    assert("id"@.len() == 2);
    assert("error"@.len() == 5);
    assert("result"@.len() == 6);
}

/// Builds the request envelope for a call of `method` with `params` under
/// `id`.
pub fn format_request(id: u64, method: &str, params: Vec<Value>) -> (request: Value)
    ensures
        json_of(request) == request_envelope(id, method@, documents(params@)),
{
    let mut object = object_new();
    object_insert(&mut object, "jsonrpc".to_owned(), from_text("2.0".to_owned()));
    object_insert(&mut object, "id".to_owned(), from_unsigned(id));
    object_insert(&mut object, "method".to_owned(), from_text(method.to_owned()));
    object_insert(&mut object, "params".to_owned(), from_array(params));
    from_object(object)
}

/// Builds the request envelope and writes it as JSON text.
pub fn serialize_request(id: u64, method: &str, params: Vec<Value>) -> (r: Result<
    Vec<u8>,
    ErrorKind,
>)
    ensures
        match r {
            Ok(text) => request_text(id, method@, documents(params@)) == Some(text@),
            Err(kind) => kind == ErrorKind::SerializeError && request_text(
                id,
                method@,
                documents(params@),
            ) is None,
        },
{
    let request = format_request(id, method, params);
    match to_bytes(&request) {
        Ok(text) => Ok(text),
        Err(_) => Err(ErrorKind::SerializeError),
    }
}

/// Whether a value is the string `expected`.
fn is_text(value: &Value, expected: &str) -> (b: bool)
    ensures
        b == (json_of(*value) == Json::Text(expected@)),
{
    match as_text(value) {
        Some(text) => text.to_owned() == expected.to_owned(),
        None => false,
    }
}

/// Whether a value is the integer `expected`.
fn is_unsigned(value: &Value, expected: u64) -> (b: bool)
    ensures
        b == (json_of(*value) == Json::Integer(expected as int)),
{
    match as_unsigned(value) {
        Some(n) => n == expected,
        None => false,
    }
}

/// Takes the members out of a response document, which has to be an object.
pub fn response_object(document: Value) -> (r: Result<
    serde_json::Map<String, Value>,
    ResponseFault,
>)
    ensures
        members_result_of(r) == members_in(json_of(document)),
{
    match into_object(document) {
        Some(object) => Ok(object),
        None => Err(ResponseFault::NotAnObject),
    }
}

/// Reads a response text as a JSON object.
pub fn get_response_as_map(response: &[u8]) -> (r: Result<
    serde_json::Map<String, Value>,
    ResponseFault,
>)
    ensures
        members_result_of(r) == response_members(response@),
{
    match parse(response) {
        Ok(document) => response_object(document),
        Err(_) => Err(ResponseFault::InvalidJson),
    }
}

/// Checks a response object against the id of the request and takes out its
/// result.
///
/// The version is checked first and the id second, so that an envelope of
/// the wrong shape is never read as an error or a result. An `error` member
/// is read as an error object and ends the check: `result` is looked at
/// only where there is no `error`.
pub fn check_response_and_get_result(
    response_map: serde_json::Map<String, Value>,
    expected_id: u64,
) -> (r: Result<Value, ErrorKind>)
    ensures
        outcome_of(r) == checked_result(members_of(response_map), expected_id),
{
    proof {
        lemma_envelope_keys_differ();
    }
    let mut response_map = response_map;
    let version_ok = match object_remove(&mut response_map, "jsonrpc") {
        Some(version) => is_text(&version, "2.0"),
        None => false,
    };
    if !version_ok {
        return Err(ErrorKind::ResponseError(ResponseFault::WrongVersion));
    }
    let id_ok = match object_remove(&mut response_map, "id") {
        Some(id) => is_unsigned(&id, expected_id),
        None => false,
    };
    if !id_ok {
        return Err(ErrorKind::ResponseError(ResponseFault::IdMismatch));
    }
    if let Some(error_json) = object_remove(&mut response_map, "error") {
        return match json_value_to_rpc_error(error_json) {
            Ok(error) => Err(ErrorKind::JsonRpcError(error)),
            Err(fault) => Err(ErrorKind::ResponseError(fault)),
        };
    }
    match object_remove(&mut response_map, "result") {
        Some(result) => Ok(result),
        None => Err(ErrorKind::ResponseError(ResponseFault::NoResult)),
    }
}

/// Reads a response text and takes out the result of the call that went out
/// under `expected_id`.
pub fn parse_response(response: &[u8], expected_id: u64) -> (r: Result<Value, ErrorKind>)
    ensures
        outcome_of(r) == response_outcome(response@, expected_id),
{
    match get_response_as_map(response) {
        Ok(response_map) => check_response_and_get_result(response_map, expected_id),
        Err(fault) => Err(ErrorKind::ResponseError(fault)),
    }
}

/// Reads the result of a method that returns a string.
pub fn result_as_text(result: Value) -> (r: Result<String, ResponseFault>)
    ensures
        match r {
            Ok(text) => text_in(json_of(result)) matches Ok(expected) && expected == text@,
            Err(fault) => text_in(json_of(result)) matches Err(expected) && expected == fault,
        },
{
    match into_text(result) {
        Ok(text) => Ok(text),
        Err(_) => Err(ResponseFault::WrongResultType),
    }
}

/// Reads the result of a method that returns nothing: it has to be `null`.
pub fn result_as_unit(result: Value) -> (r: Result<(), ResponseFault>)
    ensures
        r == unit_in(json_of(result)),
{
    match into_unit(result) {
        Ok(()) => Ok(()),
        Err(_) => Err(ResponseFault::WrongResultType),
    }
}

} // verus!
