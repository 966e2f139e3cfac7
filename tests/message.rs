use surreal_simple_client::errors::{SurrealError, SurrealInternalError};
use surreal_simple_client::ids::{new_request_id, ID_LENGTH};
use surreal_simple_client::message::{prepare_call, request_frame};
use surreal_simple_client::DispatchEvent;
use surreal_simple_client::rpc::RpcChannelError;
use surreal_simple_client::SurrealMessage;

#[test]
fn request_frame_is_the_wire_envelope() {
    let frame = request_frame("abc", "query", "[\"create stuff set name = 'x'\",{}]").unwrap();
    assert_eq!(frame, "{\"id\":\"abc\",\"method\":\"query\",\"params\":[\"create stuff set name = 'x'\",{}]}");
}

#[test]
fn request_frame_escapes_strings() {
    let frame = request_frame("a\"b", "m\\n", "null").unwrap();
    assert_eq!(frame, "{\"id\":\"a\\\"b\",\"method\":\"m\\\\n\",\"params\":null}");
}

#[test]
fn message_frame_round_trips_through_json() {
    let params: serde_json::Value = serde_json::from_str("[\"create stuff set name = 'x'\",{}]").unwrap();
    let message = SurrealMessage::new("query", params.clone());
    let frame = message.to_frame().unwrap();
    let decoded: serde_json::Value = serde_json::from_str(&frame).unwrap();
    assert_eq!(decoded.get("id").unwrap().as_str(), Some(message.id.as_str()));
    assert_eq!(decoded.get("method").unwrap().as_str(), Some("query"));
    assert_eq!(decoded.get("params"), Some(&params));
}

#[test]
fn request_ids_are_alphanumeric_and_distinct() {
    let a = new_request_id();
    let b = new_request_id();
    assert_eq!(a.chars().count(), ID_LENGTH);
    assert!(a.chars().all(|c| c.is_ascii_alphanumeric()));
    assert!(b.chars().all(|c| c.is_ascii_alphanumeric()));
    assert_ne!(a, b);
}

#[test]
fn message_ids_are_fresh() {
    let a = SurrealMessage::new("use", serde_json::Value::Null);
    let b = SurrealMessage::new("use", serde_json::Value::Null);
    assert_ne!(a.id, b.id);
    assert_eq!(a.method, "use");
}

#[test]
fn surreal_error_keeps_its_fields() {
    let e = SurrealError::new("q1".to_string(), SurrealInternalError::new(-32000, "bad query".to_string()));
    assert_eq!(e.id(), "q1");
    assert_eq!(e.error().code(), -32000);
    assert_eq!(e.error().message(), "bad query");
}

#[test]
fn json_error_becomes_body_parsing_error() {
    let err = serde_json::from_str::<serde_json::Value>("{").unwrap_err();
    assert!(matches!(RpcChannelError::from(err), RpcChannelError::SurrealBodyParsingError { .. }));
}

#[test]
fn prepared_call_registers_and_frames_the_same_id() {
    let params: serde_json::Value = serde_json::from_str("[\"ns\",\"db\"]").unwrap();
    let call = prepare_call("use", params, 42u8).unwrap();
    match call.registration {
        DispatchEvent::Registration { id, handle } => {
            assert_eq!(id, call.id);
            assert_eq!(handle, 42);
        }
        _ => panic!("the call was not registered"),
    }
    let expected = format!("{{\"id\":\"{}\",\"method\":\"use\",\"params\":[\"ns\",\"db\"]}}", call.id);
    assert_eq!(call.frame, expected);
}
