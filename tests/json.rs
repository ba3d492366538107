use http_request::{IpAddr, Method, Request, SocketAddr, TextMap};
use serde_json::Value;

fn with_body(body: &[u8]) -> Request {
    Request::new(
        Method::Post,
        "/".to_string(),
        "HTTP/1.1".to_string(),
        TextMap::new(),
        SocketAddr::new(IpAddr::V4(0), 1),
        body.to_vec(),
    )
}

#[test]
fn round_trip_of_encoded_values() {
    let mut object = serde_json::Map::new();
    object.insert("name".to_string(), Value::String("Ada".to_string()));
    object.insert("tags".to_string(), Value::Array(vec![Value::Bool(true), Value::Null]));
    object.insert("age".to_string(), Value::from(37u32));
    let values = vec![
        Value::Object(object),
        Value::Array(vec![Value::from(1i64), Value::from(-2i64)]),
        Value::String("x\"y".to_string()),
        Value::from(2.5f64),
        Value::Null,
    ];
    for v in values {
        let bytes = serde_json::to_vec(&v).unwrap();
        let req = with_body(&bytes);
        assert_eq!(req.bind_json().unwrap(), v);
    }
}

#[test]
fn round_trip_into_a_typed_shape() {
    let v: Vec<u32> = vec![3, 1, 4];
    let bytes = serde_json::to_vec(&v).unwrap();
    let req = with_body(&bytes);
    let back: Vec<u32> = serde_json::from_value(req.bind_json().unwrap()).unwrap();
    assert_eq!(back, v);
}

#[test]
fn malformed_body_is_an_error() {
    let req = with_body(b"{not json");
    let err = req.bind_json().unwrap_err();
    assert!(!err.message().is_empty());
    assert_eq!(err.message(), err.cause.to_string());
    assert_eq!(err.cause.line(), 1);
}

#[test]
fn empty_body_is_an_error() {
    let req = with_body(b"");
    assert!(req.bind_json().is_err());
}

#[test]
fn trailing_text_is_an_error() {
    let req = with_body(b"[1, 2] x");
    assert!(req.bind_json().is_err());
}

#[test]
fn decoding_twice_gives_the_same_value() {
    let req = with_body(br#"{"a":[1,2,3]}"#);
    let first = req.bind_json().unwrap();
    let second = req.bind_json().unwrap();
    assert_eq!(first, second);
    assert_eq!(first["a"][2].as_u64(), Some(3));
}

#[test]
fn decoding_twice_gives_the_same_error() {
    let req = with_body(b"{not json");
    let first = req.bind_json().unwrap_err();
    assert_eq!(req.body(), b"{not json");
    let second = req.bind_json().unwrap_err();
    assert_eq!(first.message(), second.message());
    assert_eq!(req.body(), b"{not json");
}

#[test]
fn decoding_leaves_the_body() {
    let req = with_body(b"[true]");
    let v = req.bind_json().unwrap();
    assert_eq!(v, Value::Array(vec![Value::Bool(true)]));
    assert_eq!(req.data_length(), 6);
    assert_eq!(req.body(), b"[true]");
}
