//! Server-sent events: splitting, decoding, terminal and error states.

use a2a_client::error::A2AError;
use a2a_client::json::JsonValue;
use a2a_client::sse::{event_from_result, SseCodec, SseEvent, SseParser};

fn state_payload(state: &str) -> JsonValue {
    JsonValue::Obj(vec![("state".to_string(), JsonValue::Str(state.to_string()))])
}

#[test]
fn test_sse_event_is_terminal() {
    let event = SseEvent {
        kind: "status-update".to_string(),
        payload: state_payload("completed"),
        final_event: false,
    };
    assert!(event.is_terminal());

    let event = SseEvent {
        kind: "artifact-update".to_string(),
        payload: JsonValue::Obj(vec![]),
        final_event: true,
    };
    assert!(event.is_terminal());

    let event = SseEvent {
        kind: "status-update".to_string(),
        payload: state_payload("running"),
        final_event: false,
    };
    assert!(!event.is_terminal());
}

#[test]
fn test_sse_event_is_error() {
    let event = SseEvent {
        kind: "status-update".to_string(),
        payload: state_payload("failed"),
        final_event: false,
    };
    assert!(event.is_error());

    let event = SseEvent {
        kind: "status-update".to_string(),
        payload: state_payload("completed"),
        final_event: false,
    };
    assert!(!event.is_error());
}

#[test]
fn test_sse_terminal_and_error_states() {
    for state in ["failed", "cancelled", "rejected"] {
        let event = SseEvent {
            kind: "status-update".to_string(),
            payload: state_payload(state),
            final_event: false,
        };
        assert!(event.is_error(), "{state} should be an error state");
        assert!(event.is_terminal(), "{state} should be terminal");
    }
    let completed = SseEvent {
        kind: "status-update".to_string(),
        payload: state_payload("completed"),
        final_event: false,
    };
    assert!(completed.is_terminal());
    assert!(!completed.is_error());
}

#[test]
fn test_parse_sse_stream() {
    let codec = SseCodec::new();
    let mut parser = SseParser::new();

    let sse_data = "data: {\"jsonrpc\":\"2.0\",\"result\":{\"kind\":\"status-update\",\"state\":\"running\"},\"id\":\"1\"}\n\ndata: {\"jsonrpc\":\"2.0\",\"result\":{\"kind\":\"artifact-update\",\"final\":true},\"id\":\"2\"}\n\n";

    let payloads = parser.feed(sse_data);
    assert_eq!(payloads.len(), 2);

    let event1 = codec.decode_event_data(&payloads[0]).unwrap();
    assert_eq!(event1.kind, "status-update");
    assert!(!event1.final_event);

    let event2 = codec.decode_event_data(&payloads[1]).unwrap();
    assert_eq!(event2.kind, "artifact-update");
    assert!(event2.final_event);
    assert!(!event1.is_terminal());
    assert!(event2.is_terminal());
}

#[test]
fn test_parse_sse_stream_chunked() {
    let codec = SseCodec::new();
    let mut parser = SseParser::new();

    let first = parser.feed("data: {\"jsonrpc\":\"2.0\",\"result\":");
    assert_eq!(first.len(), 0);
    let second = parser.feed("{\"kind\":\"status-update\"},\"id\":\"1\"}\n\n");
    assert_eq!(second.len(), 1);

    let event = codec.decode_event_data(&second[0]).unwrap();
    assert_eq!(event.kind, "status-update");
}

#[test]
fn test_parse_sse_error() {
    let codec = SseCodec::new();
    let mut parser = SseParser::new();

    let sse_data = "data: {\"jsonrpc\":\"2.0\",\"error\":{\"code\":-32600,\"message\":\"Invalid Request\"},\"id\":\"1\"}\n\n";

    let payloads = parser.feed(sse_data);
    assert_eq!(payloads.len(), 1);

    let result = codec.decode_event_data(&payloads[0]);
    assert!(result.is_err());

    match result {
        Err(A2AError::Protocol(msg)) => {
            assert!(msg.contains("Invalid Request"));
        }
        _ => panic!("Expected Protocol error"),
    }
}

#[test]
fn test_value_to_sse_event() {
    let value = JsonValue::Obj(vec![
        ("kind".to_string(), JsonValue::Str("status-update".to_string())),
        ("state".to_string(), JsonValue::Str("running".to_string())),
        ("final".to_string(), JsonValue::Bool(false)),
    ]);

    let event = event_from_result(&value);
    assert_eq!(event.kind, "status-update");
    assert!(!event.final_event);
}

#[test]
fn test_value_to_sse_event_final() {
    let value = JsonValue::Obj(vec![
        ("kind".to_string(), JsonValue::Str("artifact-update".to_string())),
        ("final".to_string(), JsonValue::Bool(true)),
    ]);

    let event = event_from_result(&value);
    assert_eq!(event.kind, "artifact-update");
    assert!(event.final_event);
}
