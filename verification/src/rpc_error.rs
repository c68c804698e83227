//! Reading the `error` member of a response as an [`RpcError`].
//!
//! The code of an error object is read by `jsonrpc_core`, through one
//! function of this module that has no verified body. The rest is verified.

use crate::error::{ErrorCode, ResponseFault, RpcError, RpcErrorView};
use crate::json::{as_text, into_object, json_of, object_get, object_remove, Json};
use serde_json::Value;
use vstd::prelude::*;

verus! {

/// The error code that a document holds: the document has to be an integer
/// that fits in an `i64`.
pub open spec fn code_in(document: Json) -> Option<ErrorCode> {
    match document {
        Json::Integer(n) if i64::MIN <= n <= i64::MAX => Some(ErrorCode::of(n as i64)),
        _ => None,
    }
}

/// The optional `data` member of an error object.
pub open spec fn data_in(members: Map<Seq<char>, Json>) -> Option<Json> {
    if members.dom().contains("data"@) {
        Some(members["data"@])
    } else {
        None
    }
}

/// The error that a document holds, or the fault that keeps it from being
/// one. The document has to be an object, then its `code` an integer, then
/// its `message` a string; `data` may be anything and may be missing.
pub open spec fn rpc_error_in(document: Json) -> Result<RpcErrorView, ResponseFault> {
    match document {
        Json::Object(members) => {
            if !members.dom().contains("code"@) {
                Err(ResponseFault::MalformedCode)
            } else {
                match (code_in(members["code"@]), members.get("message"@)) {
                    (None, _) => Err(ResponseFault::MalformedCode),
                    (Some(code), Some(Json::Text(message))) => Ok(
                        RpcErrorView { code, message, data: data_in(members) },
                    ),
                    (Some(_), _) => Err(ResponseFault::MalformedMessage),
                }
            }
        },
        _ => Err(ResponseFault::MalformedError),
    }
}

/// `serde_json::from_value`, asked for a `jsonrpc_core::ErrorCode`, whose
/// variants are then written as those of [`ErrorCode`]. `jsonrpc_core` reads
/// an `i64`, which `serde_json` gives for an integer in that range and for
/// no other document, and picks the variant as [`ErrorCode::of`] does.
#[verifier::external_body]
pub(crate) fn into_error_code(value: Value) -> (r: Result<ErrorCode, serde_json::Error>)
    ensures
        r is Ok <==> code_in(json_of(value)) is Some,
        r matches Ok(code) ==> code_in(json_of(value)) == Some(code),
{
    match serde_json::from_value::<jsonrpc_core::ErrorCode>(value)? {
        jsonrpc_core::ErrorCode::ParseError => Ok(ErrorCode::ParseError),
        jsonrpc_core::ErrorCode::InvalidRequest => Ok(ErrorCode::InvalidRequest),
        jsonrpc_core::ErrorCode::MethodNotFound => Ok(ErrorCode::MethodNotFound),
        jsonrpc_core::ErrorCode::InvalidParams => Ok(ErrorCode::InvalidParams),
        jsonrpc_core::ErrorCode::InternalError => Ok(ErrorCode::InternalError),
        jsonrpc_core::ErrorCode::ServerError(number) => Ok(ErrorCode::ServerError(number)),
    }
}

/// The three keys of an error object are three different strings.
proof fn lemma_error_keys_differ()
    ensures
        "code"@ != "message"@,
        "code"@ != "data"@,
        "message"@ != "data"@,
{
    reveal_strlit("code");
    reveal_strlit("message");
    reveal_strlit("data");
    assert("code"@[0] != "data"@[0]);
}

/// What a reading of an error object says, as a mathematical value.
pub open spec fn error_result_of(r: Result<RpcError, ResponseFault>) -> Result<
    RpcErrorView,
    ResponseFault,
> {
    match r {
        Ok(error) => Ok(error@),
        Err(fault) => Err(fault),
    }
}

/// Reads the `error` member of a response as an error object.
///
/// The value has to be an object with an integer `code` and a string
/// `message`; its `data` member, if it has one, is handed on as it is.
pub fn json_value_to_rpc_error(error_json: Value) -> (r: Result<RpcError, ResponseFault>)
    ensures
        error_result_of(r) == rpc_error_in(json_of(error_json)),
{
    proof {
        lemma_error_keys_differ();
    }
    let mut object = match into_object(error_json) {
        Some(object) => object,
        None => {
            return Err(ResponseFault::MalformedError);
        },
    };
    let code = match object_remove(&mut object, "code") {
        Some(code_json) => match into_error_code(code_json) {
            Ok(code) => code,
            Err(_) => {
                return Err(ResponseFault::MalformedCode);
            },
        },
        None => {
            return Err(ResponseFault::MalformedCode);
        },
    };
    let message = match object_get(&object, "message") {
        Some(message_json) => match as_text(message_json) {
            Some(text) => text.to_owned(),
            None => {
                return Err(ResponseFault::MalformedMessage);
            },
        },
        None => {
            return Err(ResponseFault::MalformedMessage);
        },
    };
    let data = object_remove(&mut object, "data");
    Ok(RpcError { code, message, data })
}

} // verus!
