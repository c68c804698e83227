//! The ways in which a call can fail.
//!
//! A call ends in exactly one [`ErrorKind`]. [`CallError`] adds to it what the
//! transport reported, where the transport is the one that failed.

use crate::json::{json_of, Json};
use serde_json::Value;
use vstd::prelude::*;

verus! {

/// The code of a JSON-RPC error object: one of the codes that the protocol
/// names, or any other integer.
#[derive(Clone, Copy, Debug, PartialEq, Eq)]
pub enum ErrorCode {
    /// -32700: the server could not parse the request.
    ParseError,
    /// -32600: the request was not a valid request object.
    InvalidRequest,
    /// -32601: the method does not exist.
    MethodNotFound,
    /// -32602: the parameters were not valid.
    InvalidParams,
    /// -32603: the server failed internally.
    InternalError,
    /// Any other code.
    ServerError(i64),
}

impl ErrorCode {
    /// The code that an integer stands for.
    pub open spec fn of(number: i64) -> ErrorCode {
        if number == -32700 {
            ErrorCode::ParseError
        } else if number == -32600 {
            ErrorCode::InvalidRequest
        } else if number == -32601 {
            ErrorCode::MethodNotFound
        } else if number == -32602 {
            ErrorCode::InvalidParams
        } else if number == -32603 {
            ErrorCode::InternalError
        } else {
            ErrorCode::ServerError(number)
        }
    }

    /// The integer that stands for a code on the wire.
    pub open spec fn number(self) -> i64 {
        match self {
            ErrorCode::ParseError => -32700i64,
            ErrorCode::InvalidRequest => -32600i64,
            ErrorCode::MethodNotFound => -32601i64,
            ErrorCode::InvalidParams => -32602i64,
            ErrorCode::InternalError => -32603i64,
            ErrorCode::ServerError(number) => number,
        }
    }

    /// The integer that stands for this code on the wire.
    pub fn code(&self) -> (number: i64)
        ensures
            number == self.number(),
    {
        match self {
            ErrorCode::ParseError => -32700,
            ErrorCode::InvalidRequest => -32600,
            ErrorCode::MethodNotFound => -32601,
            ErrorCode::InvalidParams => -32602,
            ErrorCode::InternalError => -32603,
            ErrorCode::ServerError(number) => *number,
        }
    }
}

/// Why a response was not accepted.
#[derive(Clone, Copy, Debug, PartialEq, Eq)]
pub enum ResponseFault {
    /// The bytes are not a JSON document.
    InvalidJson,
    /// The document is not an object.
    NotAnObject,
    /// The `jsonrpc` member is missing or is not the string `2.0`.
    WrongVersion,
    /// The `id` member is missing or is not the id of the request.
    IdMismatch,
    /// The `error` member is not an object.
    MalformedError,
    /// The error object has no `code`, or one that is not an integer that
    /// fits in an `i64`.
    MalformedCode,
    /// The error object has no `message`, or one that is not a string.
    MalformedMessage,
    /// The response has neither an `error` nor a `result` member.
    NoResult,
    /// The result is not of the type that the method returns.
    WrongResultType,
}

impl ResponseFault {
    /// The fault in words.
    pub open spec fn reason_text(self) -> Seq<char> {
        match self {
            ResponseFault::InvalidJson => "not valid json"@,
            ResponseFault::NotAnObject => "not an object"@,
            ResponseFault::WrongVersion => "not JSON-RPC 2.0 compatible"@,
            ResponseFault::IdMismatch => "id mismatch"@,
            ResponseFault::MalformedError => "malformed error object"@,
            ResponseFault::MalformedCode => "missing/malformed code"@,
            ResponseFault::MalformedMessage => "missing/malformed message"@,
            ResponseFault::NoResult => "no result field"@,
            ResponseFault::WrongResultType => "result does not match target type"@,
        }
    }

    /// The fault in words.
    pub fn reason(&self) -> (text: &'static str)
        ensures
            text@ == self.reason_text(),
    {
        match self {
            ResponseFault::InvalidJson => "not valid json",
            ResponseFault::NotAnObject => "not an object",
            ResponseFault::WrongVersion => "not JSON-RPC 2.0 compatible",
            ResponseFault::IdMismatch => "id mismatch",
            ResponseFault::MalformedError => "malformed error object",
            ResponseFault::MalformedCode => "missing/malformed code",
            ResponseFault::MalformedMessage => "missing/malformed message",
            ResponseFault::NoResult => "no result field",
            ResponseFault::WrongResultType => "result does not match target type",
        }
    }
}

/// The error object of a response: what the remote end reported.
#[derive(Clone, Debug, PartialEq)]
pub struct RpcError {
    pub code: ErrorCode,
    pub message: String,
    pub data: Option<Value>,
}

/// An [`RpcError`] as a mathematical value.
pub struct RpcErrorView {
    pub code: ErrorCode,
    pub message: Seq<char>,
    pub data: Option<Json>,
}

impl View for RpcError {
    type V = RpcErrorView;

    open spec fn view(&self) -> RpcErrorView {
        RpcErrorView {
            code: self.code,
            message: self.message@,
            data: match self.data {
                Some(value) => Some(json_of(value)),
                None => None,
            },
        }
    }
}

/// How a call failed.
#[derive(Clone, Debug, PartialEq)]
pub enum ErrorKind {
    /// The transport could not deliver the request or the response.
    TransportError,
    /// The request could not be written as JSON text.
    SerializeError,
    /// A response came back that is not an answer to the request.
    ResponseError(ResponseFault),
    /// The remote end answered with an error object.
    JsonRpcError(RpcError),
}

/// An [`ErrorKind`] as a mathematical value.
pub enum ErrorKindView {
    TransportError,
    SerializeError,
    ResponseError(ResponseFault),
    JsonRpcError(RpcErrorView),
}

impl View for ErrorKind {
    type V = ErrorKindView;

    open spec fn view(&self) -> ErrorKindView {
        match self {
            ErrorKind::TransportError => ErrorKindView::TransportError,
            ErrorKind::SerializeError => ErrorKindView::SerializeError,
            ErrorKind::ResponseError(fault) => ErrorKindView::ResponseError(*fault),
            ErrorKind::JsonRpcError(error) => ErrorKindView::JsonRpcError(error@),
        }
    }
}

/// A failed call: its kind and, where the transport failed, the error that
/// the transport gave.
#[derive(Debug)]
pub struct CallError<E> {
    pub kind: ErrorKind,
    pub cause: Option<E>,
}

impl<E> CallError<E> {
    /// A cause is held for a transport failure and for nothing else.
    pub open spec fn wf(&self) -> bool {
        self.cause is Some <==> self.kind is TransportError
    }

    /// The failure of the transport, with the error that it gave.
    pub(crate) fn transport(cause: E) -> (error: Self)
        ensures
            error.kind == ErrorKind::TransportError,
            error.cause == Some(cause),
            error.wf(),
    {
        CallError { kind: ErrorKind::TransportError, cause: Some(cause) }
    }

    /// A failure that the transport had no part in.
    pub(crate) fn without_cause(kind: ErrorKind) -> (error: Self)
        requires
            !(kind is TransportError),
        ensures
            error.kind == kind,
            error.cause is None,
            error.wf(),
    {
        CallError { kind, cause: None }
    }

    /// How the call failed.
    pub fn kind(&self) -> (kind: &ErrorKind)
        ensures
            *kind == self.kind,
    {
        &self.kind
    }
}

} // verus!
