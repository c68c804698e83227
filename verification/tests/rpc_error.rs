use jsonrpc_client_core::{json_value_to_rpc_error, ErrorCode, ResponseFault, RpcError};
use serde_json::Value;

fn json(text: &str) -> Value {
    serde_json::from_str(text).unwrap()
}

fn read_error(text: &str) -> Result<RpcError, ResponseFault> {
    json_value_to_rpc_error(json(text))
}

fn code_of(text: &str) -> Result<ErrorCode, ResponseFault> {
    read_error(&format!(r#"{{"code":{},"message":""}}"#, text)).map(|error| error.code)
}

#[test]
fn error_object_with_data() {
    let expected = RpcError {
        code: ErrorCode::InvalidRequest,
        message: "This was an invalid request".to_string(),
        data: Some(json("[1,2,3]")),
    };
    assert_eq!(
        Ok(expected),
        read_error(r#"{"code":-32600,"message":"This was an invalid request","data":[1,2,3]}"#)
    );
}

#[test]
fn error_object_without_data() {
    let expected =
        RpcError { code: ErrorCode::ServerError(3), message: "three".to_string(), data: None };
    assert_eq!(Ok(expected), read_error(r#"{"message":"three","code":3}"#));
}

#[test]
fn error_object_with_null_data() {
    let error = read_error(r#"{"message":"","code":0,"data":null}"#).unwrap();
    assert_eq!(Some(Value::Null), error.data);
    assert_eq!(ErrorCode::ServerError(0), error.code);
    assert_eq!("", error.message);
}

#[test]
fn error_object_may_hold_other_members() {
    let expected =
        RpcError { code: ErrorCode::InternalError, message: "m".to_string(), data: None };
    assert_eq!(Ok(expected), read_error(r#"{"code":-32603,"message":"m","extra":1,"Data":2}"#));
}

#[test]
fn error_has_to_be_an_object() {
    for text in ["null", "17", r#""code""#, r#"[{"code":1,"message":"m"}]"#, "true"] {
        assert_eq!(Err(ResponseFault::MalformedError), read_error(text));
    }
    assert_eq!("malformed error object", ResponseFault::MalformedError.reason());
}

#[test]
fn code_has_to_be_there() {
    assert_eq!(Err(ResponseFault::MalformedCode), read_error(r#"{"message":"m"}"#));
    assert_eq!(Err(ResponseFault::MalformedCode), read_error("{}"));
    assert_eq!(Err(ResponseFault::MalformedCode), read_error(r#"{"Code":1,"message":"m"}"#));
    assert_eq!("missing/malformed code", ResponseFault::MalformedCode.reason());
}

#[test]
fn code_has_to_be_an_integer() {
    for code in ["1.5", "1.0", "1e2", r#""1""#, "null", "[1]", "{}", "true"] {
        assert_eq!(Err(ResponseFault::MalformedCode), code_of(code));
    }
}

#[test]
fn code_has_to_fit_in_an_i64() {
    assert_eq!(Ok(ErrorCode::ServerError(i64::MAX)), code_of("9223372036854775807"));
    assert_eq!(Err(ResponseFault::MalformedCode), code_of("9223372036854775808"));
    assert_eq!(Err(ResponseFault::MalformedCode), code_of("18446744073709551615"));
    assert_eq!(Ok(ErrorCode::ServerError(i64::MIN)), code_of("-9223372036854775808"));
    assert_eq!(Err(ResponseFault::MalformedCode), code_of("-9223372036854775809"));
}

#[test]
fn code_is_checked_before_message() {
    assert_eq!(Err(ResponseFault::MalformedCode), read_error(r#"{"code":"x","message":7}"#));
    assert_eq!(Err(ResponseFault::MalformedCode), read_error(r#"{"data":1}"#));
}

#[test]
fn well_known_codes_have_names() {
    assert_eq!(Ok(ErrorCode::ParseError), code_of("-32700"));
    assert_eq!(Ok(ErrorCode::InvalidRequest), code_of("-32600"));
    assert_eq!(Ok(ErrorCode::MethodNotFound), code_of("-32601"));
    assert_eq!(Ok(ErrorCode::InvalidParams), code_of("-32602"));
    assert_eq!(Ok(ErrorCode::InternalError), code_of("-32603"));
}

#[test]
fn other_codes_are_kept_as_numbers() {
    for code in [-32604i64, -32599, -32701, -32699, -32000, 0, 1, -1, 32700] {
        assert_eq!(Ok(ErrorCode::ServerError(code)), code_of(&code.to_string()));
    }
}

#[test]
fn message_has_to_be_a_string() {
    assert_eq!(Err(ResponseFault::MalformedMessage), read_error(r#"{"code":1}"#));
    for message in ["null", "1", r#"["m"]"#, r#"{"m":"m"}"#, "false"] {
        let text = format!(r#"{{"code":1,"message":{},"data":0}}"#, message);
        assert_eq!(Err(ResponseFault::MalformedMessage), read_error(&text));
    }
    assert_eq!("missing/malformed message", ResponseFault::MalformedMessage.reason());
}

#[test]
fn message_is_kept_as_it_is() {
    let error = read_error(r#"{"code":1,"message":" \"quoted\" é\n"}"#).unwrap();
    assert_eq!(" \"quoted\" \u{e9}\n", error.message);
}
