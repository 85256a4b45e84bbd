use jsonrpc_dispatch::dispatch::DispatchError;
use jsonrpc_dispatch::request::{DecodeError, Field, RpcRequest};
use jsonrpc_dispatch::service::{answer, handle, respond, RpcError};

fn text(r: Result<Vec<u8>, RpcError>) -> String {
    String::from_utf8(r.unwrap()).unwrap()
}

#[test]
fn sum_of_no_parameters_is_zero() {
    let out = handle(br#"{"jsonrpc":"2.0","method":"sum","params":[],"id":7}"#);
    assert_eq!(text(out), r#"{"jsonrpc":"2.0","result":0,"id":7}"#);
}

#[test]
fn sum_of_mixed_signs() {
    let out = handle(br#"{"jsonrpc":"2.0","method":"sum","params":[10,-3,5],"id":2}"#);
    assert_eq!(text(out), r#"{"jsonrpc":"2.0","result":12,"id":2}"#);
}

#[test]
fn wire_example() {
    let out = handle(br#"{"jsonrpc":"2.0","method":"sum","params":[1,2,3],"id":1}"#);
    assert_eq!(text(out), r#"{"jsonrpc":"2.0","result":6,"id":1}"#);
}

#[test]
fn unknown_method_answers_zero() {
    let out = handle(br#"{"jsonrpc":"2.0","method":"noop","params":[1],"id":3}"#);
    assert_eq!(text(out), r#"{"jsonrpc":"2.0","result":0,"id":3}"#);
}

#[test]
fn malformed_body_gets_no_response() {
    let out = handle(b"not json");
    assert_eq!(out, Err(RpcError::Decode(DecodeError::Syntax)));
}

#[test]
fn empty_body_gets_no_response() {
    assert_eq!(handle(b""), Err(RpcError::Decode(DecodeError::Syntax)));
}

#[test]
fn missing_id_gets_no_response() {
    let out = handle(br#"{"jsonrpc":"2.0","method":"sum","params":[1]}"#);
    assert_eq!(out, Err(RpcError::Decode(DecodeError::Missing(Field::Id))));
}

#[test]
fn overflowing_sum_is_reported() {
    let out = handle(br#"{"jsonrpc":"2.0","method":"sum","params":[2147483647,1],"id":4}"#);
    assert_eq!(out, Err(RpcError::Dispatch(DispatchError::Overflow)));
}

#[test]
fn negative_result_and_id() {
    let out = handle(br#"{"jsonrpc":"2.0","method":"sum","params":[-2147483648],"id":-15}"#);
    assert_eq!(text(out), r#"{"jsonrpc":"2.0","result":-2147483648,"id":-15}"#);
}

#[test]
fn whitespace_and_member_order_do_not_matter() {
    let out = handle(b" {\n \"id\": 9,\t\"params\": [ 4 , 5 ],\r\n \"method\": \"sum\", \"jsonrpc\": \"2.0\" }\n");
    assert_eq!(text(out), r#"{"jsonrpc":"2.0","result":9,"id":9}"#);
}

#[test]
fn exchanges_are_independent() {
    let body = br#"{"jsonrpc":"2.0","method":"sum","params":[1,1],"id":5}"#;
    let first = handle(body);
    assert!(handle(b"{").is_err());
    let second = handle(body);
    assert_eq!(first, second);
}

#[test]
fn response_carries_request_id() {
    for id in [i32::MIN, -1, 0, 1, 42, i32::MAX] {
        let request = RpcRequest {
            jsonrpc: "2.0".to_string(),
            method: "sum".to_string(),
            params: vec![1, 2],
            id,
        };
        let response = respond(&request).unwrap();
        assert_eq!(response.id, id);
        assert_eq!(response.result, 3);
        assert_eq!(response.jsonrpc, "2.0");
    }
}

#[test]
fn respond_reports_overflow() {
    let request = RpcRequest {
        jsonrpc: "2.0".to_string(),
        method: "sum".to_string(),
        params: vec![i32::MIN, -1],
        id: 1,
    };
    assert_eq!(respond(&request), Err(DispatchError::Overflow));
    assert_eq!(answer(&request), Err(RpcError::Dispatch(DispatchError::Overflow)));
}

#[test]
fn answer_of_a_request() {
    let request = RpcRequest {
        jsonrpc: "1.0".to_string(),
        method: "sum".to_string(),
        params: vec![7, 8],
        id: 11,
    };
    assert_eq!(text(answer(&request)), r#"{"jsonrpc":"2.0","result":15,"id":11}"#);
}

#[test]
fn errors_in_words() {
    assert_eq!(RpcError::Decode(DecodeError::Syntax).describe(), "body is not JSON");
    assert_eq!(
        RpcError::Decode(DecodeError::Missing(Field::Id)).describe(),
        "missing member: id"
    );
    assert_eq!(RpcError::Dispatch(DispatchError::Overflow).describe(), "result out of range");
    assert_eq!(
        RpcError::Encode(jsonrpc_dispatch::response::EncodeError).describe(),
        "response is not of protocol version 2.0"
    );
}
