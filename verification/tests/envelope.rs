use jsonrpc_client_core::{
    check_response_and_get_result, complete_call, format_request, get_response_as_map,
    parse_response, response_object, result_as_text, result_as_unit, serialize_request,
    ErrorCode, ErrorKind, ResponseFault, RpcError,
};
use serde_json::Value;

fn json(text: &str) -> Value {
    serde_json::from_str(text).unwrap()
}

fn object(text: &str) -> serde_json::Map<String, Value> {
    match json(text) {
        Value::Object(map) => map,
        other => panic!("not an object: {:?}", other),
    }
}

fn fault(fault: ResponseFault) -> Result<Value, ErrorKind> {
    Err(ErrorKind::ResponseError(fault))
}

#[test]
fn request_has_the_four_members() {
    let params = vec![json("1"), json(r#""x""#), json(r#"{"deep":[true,null]}"#)];
    let request = format_request(7, "method_name", params);
    let expected = json(
        r#"{"jsonrpc":"2.0","id":7,"method":"method_name","params":[1,"x",{"deep":[true,null]}]}"#,
    );
    assert_eq!(expected, request);
}

#[test]
fn request_without_params_has_an_empty_array() {
    let request = format_request(1, "go", Vec::new());
    assert_eq!(Some(&Value::Array(Vec::new())), request.get("params"));
    assert_ne!(Some(&Value::Null), request.get("params"));
}

#[test]
fn request_with_one_param_has_an_array_of_one() {
    let request = format_request(1, "go", vec![json(r#""only""#)]);
    assert_eq!(Some(&json(r#"["only"]"#)), request.get("params"));
}

#[test]
fn request_keeps_the_order_of_its_params() {
    let request = format_request(1, "go", vec![json("3"), json("1"), json("2")]);
    assert_eq!(Some(&json("[3,1,2]")), request.get("params"));
}

#[test]
fn request_carries_the_largest_id() {
    let request = format_request(u64::MAX, "go", Vec::new());
    assert_eq!(Some(u64::MAX), request.get("id").and_then(Value::as_u64));
}

#[test]
fn request_text_is_the_envelope_written_out() {
    let text = serialize_request(12, "sum", vec![json("1"), json("2")]).unwrap();
    assert_eq!(
        r#"{"id":12,"jsonrpc":"2.0","method":"sum","params":[1,2]}"#,
        String::from_utf8(text).unwrap()
    );
}

#[test]
fn request_text_reads_back_as_the_request() {
    let params = vec![json(r#""Hello""#), json("-3"), json(r#"["a",{"b":null}]"#)];
    let text = serialize_request(5, "ping", params.clone()).unwrap();
    let request: Value = serde_json::from_slice(&text).unwrap();
    assert_eq!(Some(&Value::String("ping".to_string())), request.get("method"));
    assert_eq!(Some(&Value::Array(params)), request.get("params"));
    assert_eq!(Some(5), request.get("id").and_then(Value::as_u64));
    assert_eq!(Some("2.0"), request.get("jsonrpc").and_then(Value::as_str));
}

#[test]
fn request_text_of_deep_params_is_written_but_does_not_read_back() {
    let mut nested = Value::Null;
    for _ in 0..200 {
        nested = Value::Array(vec![nested]);
    }
    let text = serialize_request(1, "dig", vec![nested]).unwrap();
    assert!(text.starts_with(br#"{"id":1,"jsonrpc":"2.0","method":"dig","params":[[[["#));
    assert!(serde_json::from_slice::<Value>(&text).is_err());
}

#[test]
fn response_text_has_to_be_json() {
    assert_eq!(Err(ResponseFault::InvalidJson), get_response_as_map(b"{\"jsonrpc\":"));
    assert_eq!(Err(ResponseFault::InvalidJson), get_response_as_map(b""));
    assert_eq!(Err(ResponseFault::InvalidJson), get_response_as_map(b"{} trailing"));
}

#[test]
fn response_text_has_to_be_an_object() {
    assert_eq!(Err(ResponseFault::NotAnObject), get_response_as_map(b"[1,2]"));
    assert_eq!(Err(ResponseFault::NotAnObject), get_response_as_map(b"\"2.0\""));
    assert_eq!(Err(ResponseFault::NotAnObject), get_response_as_map(b"null"));
    assert_eq!("not an object", ResponseFault::NotAnObject.reason());
}

#[test]
fn response_text_gives_its_members() {
    let map = get_response_as_map(br#" {"a": 1, "b": [true]} "#).unwrap();
    assert_eq!(object(r#"{"a":1,"b":[true]}"#), map);
    assert_eq!(Ok(serde_json::Map::new()), get_response_as_map(b"{}"));
}

#[test]
fn response_document_has_to_be_an_object() {
    assert_eq!(Ok(object(r#"{"a":1}"#)), response_object(json(r#"{"a":1}"#)));
    assert_eq!(Err(ResponseFault::NotAnObject), response_object(json("17")));
    assert_eq!(Err(ResponseFault::NotAnObject), response_object(json("[{}]")));
}

#[test]
fn result_is_taken_out() {
    let response = object(r#"{"jsonrpc":"2.0","id":4,"result":{"x":[1,2.5,"three"]}}"#);
    assert_eq!(Ok(json(r#"{"x":[1,2.5,"three"]}"#)), check_response_and_get_result(response, 4));
}

#[test]
fn null_is_a_result() {
    let response = object(r#"{"jsonrpc":"2.0","id":4,"result":null}"#);
    assert_eq!(Ok(Value::Null), check_response_and_get_result(response, 4));
}

#[test]
fn version_is_checked_first() {
    // No `jsonrpc` member; the id is right and the result is there.
    let response = object(r#"{"id":1,"result":true}"#);
    assert_eq!(fault(ResponseFault::WrongVersion), check_response_and_get_result(response, 1));
    // No `jsonrpc` member, and nothing else is right either.
    let response = object(r#"{"id":2,"error":17}"#);
    assert_eq!(fault(ResponseFault::WrongVersion), check_response_and_get_result(response, 1));
    assert_eq!(fault(ResponseFault::WrongVersion), check_response_and_get_result(object("{}"), 1));
}

#[test]
fn version_has_to_be_the_string_two_point_zero() {
    for version in [r#""1.0""#, r#""2""#, "2.0", "2", "null", r#"["2.0"]"#, r#""2.0 ""#] {
        let text = format!(r#"{{"jsonrpc":{},"id":1,"result":true}}"#, version);
        assert_eq!(
            fault(ResponseFault::WrongVersion),
            check_response_and_get_result(object(&text), 1)
        );
    }
    assert_eq!("not JSON-RPC 2.0 compatible", ResponseFault::WrongVersion.reason());
}

#[test]
fn id_is_checked_second() {
    // A wrong id beside a well-formed error and a result.
    let response = object(
        r#"{"jsonrpc":"2.0","id":2,"error":{"code":1,"message":"m"},"result":true}"#,
    );
    assert_eq!(fault(ResponseFault::IdMismatch), check_response_and_get_result(response, 1));
    let response = object(r#"{"jsonrpc":"2.0","result":true}"#);
    assert_eq!(fault(ResponseFault::IdMismatch), check_response_and_get_result(response, 1));
}

#[test]
fn id_has_to_be_the_same_integer() {
    for id in ["1.0", r#""1""#, "-1", "null", "[1]", "0", "1e0", "18446744073709551616"] {
        let text = format!(r#"{{"jsonrpc":"2.0","id":{},"result":true}}"#, id);
        assert_eq!(
            fault(ResponseFault::IdMismatch),
            check_response_and_get_result(object(&text), 1)
        );
    }
    let response = object(r#"{"jsonrpc":"2.0","id":18446744073709551615,"result":true}"#);
    assert_eq!(Ok(Value::Bool(true)), check_response_and_get_result(response, u64::MAX));
    let response = object(r#"{"jsonrpc":"2.0","id":0,"result":true}"#);
    assert_eq!(Ok(Value::Bool(true)), check_response_and_get_result(response, 0));
}

#[test]
fn error_takes_precedence_over_result() {
    let response = object(
        r#"{"jsonrpc":"2.0","id":1,"error":{"code":-32601,"message":"no such method"},"result":"fine"}"#,
    );
    let expected = RpcError {
        code: ErrorCode::MethodNotFound,
        message: "no such method".to_string(),
        data: None,
    };
    assert_eq!(
        Err(ErrorKind::JsonRpcError(expected)),
        check_response_and_get_result(response, 1)
    );
}

#[test]
fn malformed_error_is_no_success_either() {
    let response = object(r#"{"jsonrpc":"2.0","id":1,"error":{"code":1},"result":"fine"}"#);
    assert_eq!(fault(ResponseFault::MalformedMessage), check_response_and_get_result(response, 1));
    let response = object(r#"{"jsonrpc":"2.0","id":1,"error":null,"result":"fine"}"#);
    assert_eq!(fault(ResponseFault::MalformedError), check_response_and_get_result(response, 1));
}

#[test]
fn response_without_error_needs_a_result() {
    let response = object(r#"{"jsonrpc":"2.0","id":1}"#);
    assert_eq!(fault(ResponseFault::NoResult), check_response_and_get_result(response, 1));
    let response = object(r#"{"jsonrpc":"2.0","id":1,"Result":1,"results":2}"#);
    assert_eq!(fault(ResponseFault::NoResult), check_response_and_get_result(response, 1));
    assert_eq!("no result field", ResponseFault::NoResult.reason());
}

#[test]
fn response_text_is_read_and_checked() {
    let text = br#"{"jsonrpc": "2.0", "result": [1, 2], "id": 3}"#;
    assert_eq!(Ok(json("[1,2]")), parse_response(text, 3));
    assert_eq!(fault(ResponseFault::IdMismatch), parse_response(text, 4));
    assert_eq!(fault(ResponseFault::InvalidJson), parse_response(b"\xff\xfe", 3));
    assert_eq!(fault(ResponseFault::NotAnObject), parse_response(b"3", 3));
    assert_eq!(fault(ResponseFault::WrongVersion), parse_response(br#"{"id":3,"result":1}"#, 3));
    assert_eq!(
        fault(ResponseFault::NoResult),
        parse_response(br#"{"id":3,"jsonrpc":"2.0"}"#, 3)
    );
}

#[test]
fn response_text_with_an_error_object() {
    let text = br#"{"jsonrpc":"2.0","id":3,"error":{"code":-5,"message":"no","data":{"k":1}}}"#;
    let expected = RpcError {
        code: ErrorCode::ServerError(-5),
        message: "no".to_string(),
        data: Some(json(r#"{"k":1}"#)),
    };
    assert_eq!(Err(ErrorKind::JsonRpcError(expected)), parse_response(text, 3));
}

#[test]
fn text_result() {
    assert_eq!(Ok("abc".to_string()), result_as_text(json(r#""abc""#)));
    assert_eq!(Ok(String::new()), result_as_text(json(r#""""#)));
    assert_eq!(Err(ResponseFault::WrongResultType), result_as_text(json("1")));
    assert_eq!(Err(ResponseFault::WrongResultType), result_as_text(json("null")));
    assert_eq!(Err(ResponseFault::WrongResultType), result_as_text(json(r#"["abc"]"#)));
}

#[test]
fn unit_result() {
    assert_eq!(Ok(()), result_as_unit(json("null")));
    assert_eq!(Err(ResponseFault::WrongResultType), result_as_unit(json("0")));
    assert_eq!(Err(ResponseFault::WrongResultType), result_as_unit(json("[]")));
    assert_eq!(Err(ResponseFault::WrongResultType), result_as_unit(json(r#""""#)));
    assert_eq!(Err(ResponseFault::WrongResultType), result_as_unit(json("false")));
}

#[test]
fn completed_call_gives_the_result() {
    let reply: Result<Vec<u8>, String> = Ok(br#"{"jsonrpc":"2.0","id":8,"result":"r"}"#.to_vec());
    let result = complete_call(reply, 8).map_err(|error| (error.kind, error.cause));
    assert_eq!(Ok(json(r#""r""#)), result);
}

#[test]
fn completed_call_gives_the_fault_of_the_response() {
    let reply: Result<Vec<u8>, String> = Ok(br#"{"jsonrpc":"2.0","id":8,"result":"r"}"#.to_vec());
    let error = complete_call(reply, 9).unwrap_err();
    assert_eq!(ErrorKind::ResponseError(ResponseFault::IdMismatch), error.kind);
    assert_eq!(None, error.cause);
}

#[test]
fn completed_call_keeps_the_failure_of_the_transport() {
    let reply: Result<Vec<u8>, String> = Err("connection refused".to_string());
    let error = complete_call(reply, 8).unwrap_err();
    assert_eq!(ErrorKind::TransportError, error.kind);
    assert_eq!(Some("connection refused".to_string()), error.cause);
}
