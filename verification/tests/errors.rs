use jsonrpc_client_core::{ErrorCode, ResponseFault};

#[test]
fn codes_on_the_wire() {
    assert_eq!(-32700, ErrorCode::ParseError.code());
    assert_eq!(-32600, ErrorCode::InvalidRequest.code());
    assert_eq!(-32601, ErrorCode::MethodNotFound.code());
    assert_eq!(-32602, ErrorCode::InvalidParams.code());
    assert_eq!(-32603, ErrorCode::InternalError.code());
    assert_eq!(-32000, ErrorCode::ServerError(-32000).code());
    assert_eq!(i64::MIN, ErrorCode::ServerError(i64::MIN).code());
    assert_eq!(i64::MAX, ErrorCode::ServerError(i64::MAX).code());
}

#[test]
fn every_fault_has_its_reason() {
    let reasons = [
        (ResponseFault::InvalidJson, "not valid json"),
        (ResponseFault::NotAnObject, "not an object"),
        (ResponseFault::WrongVersion, "not JSON-RPC 2.0 compatible"),
        (ResponseFault::IdMismatch, "id mismatch"),
        (ResponseFault::MalformedError, "malformed error object"),
        (ResponseFault::MalformedCode, "missing/malformed code"),
        (ResponseFault::MalformedMessage, "missing/malformed message"),
        (ResponseFault::NoResult, "no result field"),
        (ResponseFault::WrongResultType, "result does not match target type"),
    ];
    for (fault, reason) in reasons {
        assert_eq!(reason, fault.reason());
    }
}
