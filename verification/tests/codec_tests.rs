//! The plain-JSON and JSON-RPC bindings.

use a2a_client::error::A2AError;
use a2a_client::json::JsonValue;
use a2a_client::jsoncodec::{Codec, JsonCodec};
use a2a_client::jsonrpc::{operation_to_method, JsonRpcCodec};
use a2a_client::jsontext::parse_json;
use a2a_client::message::Message;
use a2a_client::operation::A2AOperation;
use a2a_client::response::A2AResponse;

#[test]
fn json_test_encode_send_message() {
    let codec = JsonCodec::new();
    let message = Message::user("Hello");

    let operation = A2AOperation::SendMessage {
        message,
        stream: false,
        context_id: None,
        task_id: None,
    };

    let body = codec.encode_request(&operation).unwrap();
    assert!(!body.is_empty());

    let json = parse_json(&body).expect("valid JSON");
    assert!(matches!(json.get("message"), Some(JsonValue::Obj(_))));
    assert_eq!(json.get("stream"), Some(&JsonValue::Bool(false)));
}

#[test]
fn test_decode_task_response() {
    let codec = JsonCodec::new();
    let json = "{\n  \"id\": \"task-123\",\n  \"status\": \"submitted\",\n  \"input\": {\"role\": \"user\", \"parts\": [{\"text\": \"Hello\"}]},\n  \"createdAt\": \"2024-01-01T00:00:00Z\"\n}";

    let operation = A2AOperation::GetTask { task_id: "task-123".to_string() };

    let response = codec.decode_response(json, &operation).unwrap();

    match response {
        A2AResponse::Task(task) => {
            assert_eq!(task.id, "task-123");
        }
        _ => panic!("Expected Task response"),
    }
}

#[test]
fn json_test_content_type() {
    let codec = JsonCodec::new();
    assert_eq!(codec.content_type(), "application/a2a+json");
}

#[test]
fn jsonrpc_test_encode_send_message() {
    let codec = JsonRpcCodec::new();
    let message = Message::user("Hello");

    let operation = A2AOperation::SendMessage {
        message,
        stream: false,
        context_id: None,
        task_id: None,
    };

    let body = codec.encode_request(&operation).unwrap();
    assert!(!body.is_empty());

    let json = parse_json(&body).expect("valid JSON-RPC");
    assert_eq!(
        json.get("jsonrpc").and_then(|v| v.as_str()).map(|s| s.as_str()),
        Some("2.0")
    );
    assert_eq!(
        json.get("method").and_then(|v| v.as_str()).map(|s| s.as_str()),
        Some("message/send")
    );
    assert!(matches!(json.get("params"), Some(JsonValue::Obj(_))));
    assert!(matches!(json.get("id"), Some(JsonValue::Str(_))));
}

#[test]
fn test_encode_streaming_message() {
    let codec = JsonRpcCodec::new();
    let message = Message::user("Hello");

    let operation = A2AOperation::SendMessage {
        message,
        stream: true,
        context_id: None,
        task_id: None,
    };

    let body = codec.encode_request(&operation).unwrap();
    let json = parse_json(&body).expect("valid JSON-RPC");
    assert_eq!(
        json.get("method").and_then(|v| v.as_str()).map(|s| s.as_str()),
        Some("message/stream")
    );
}

#[test]
fn test_operation_method_mapping() {
    let message = Message::user("test");

    let op = A2AOperation::SendMessage {
        message: message.clone(),
        stream: false,
        context_id: None,
        task_id: None,
    };
    assert_eq!(operation_to_method(&op), "message/send");

    let op = A2AOperation::SendMessage {
        message,
        stream: true,
        context_id: None,
        task_id: None,
    };
    assert_eq!(operation_to_method(&op), "message/stream");

    let op = A2AOperation::GetTask { task_id: "task-123".to_string() };
    assert_eq!(operation_to_method(&op), "task/get");

    let op = A2AOperation::CancelTask { task_id: "task-123".to_string() };
    assert_eq!(operation_to_method(&op), "task/cancel");

    let op = A2AOperation::DiscoverAgent;
    assert_eq!(operation_to_method(&op), "agent/discover");
}

#[test]
fn test_decode_success_response() {
    let codec = JsonRpcCodec::new();
    let json = "{\"jsonrpc\": \"2.0\", \"result\": {\"id\": \"task-123\", \"status\": \"submitted\", \"input\": {\"role\": \"user\", \"parts\": [{\"text\": \"Hello\"}]}, \"createdAt\": \"2024-01-01T00:00:00Z\"}, \"id\": \"req-123\"}";

    let operation = A2AOperation::GetTask { task_id: "task-123".to_string() };

    let response = codec.decode_response(json, &operation).unwrap();

    match response {
        A2AResponse::Task(task) => {
            assert_eq!(task.id, "task-123");
        }
        _ => panic!("Expected Task response"),
    }
}

#[test]
fn test_decode_error_response() {
    let codec = JsonRpcCodec::new();
    let json = "{\"jsonrpc\":\"2.0\",\"error\":{\"code\":-32600,\"message\":\"Invalid Request\"},\"id\":\"req-123\"}";

    let operation = A2AOperation::GetTask { task_id: "task-123".to_string() };

    let result = codec.decode_response(json, &operation);
    assert!(result.is_err());

    match result {
        Err(A2AError::Protocol(msg)) => {
            assert!(msg.contains("-32600"));
            assert!(msg.contains("Invalid Request"));
        }
        _ => panic!("Expected Protocol error"),
    }
}

#[test]
fn test_decode_missing_result() {
    let codec = JsonRpcCodec::new();
    let json = "{\"jsonrpc\":\"2.0\",\"id\":\"req-123\"}";

    let operation = A2AOperation::GetTask { task_id: "task-123".to_string() };

    let result = codec.decode_response(json, &operation);
    assert!(result.is_err());

    match result {
        Err(A2AError::Protocol(msg)) => {
            assert!(msg.contains("missing 'result' field"));
        }
        _ => panic!("Expected Protocol error"),
    }
}

#[test]
fn jsonrpc_test_content_type() {
    let codec = JsonRpcCodec::new();
    assert_eq!(codec.content_type(), "application/a2a+json");
}

#[test]
fn test_jsonrpc_encode_exact_text() {
    let codec = JsonRpcCodec::new();
    let operation = A2AOperation::SendMessage {
        message: Message::user("hello"),
        stream: false,
        context_id: None,
        task_id: None,
    };

    let id = "0193e000-0000-7000-8000-000000000000";
    let body = codec.encode_body_with_id(&operation, id);
    let expected = format!(
        "{{\"jsonrpc\":\"2.0\",\"method\":\"message/send\",\"params\":{{\"message\":{{\"role\":\"user\",\"parts\":[{{\"text\":\"hello\"}}]}},\"stream\":false}},\"id\":\"{}\"}}",
        id
    );
    assert_eq!(body, expected);
}

#[test]
fn test_fresh_request_id_shape() {
    let codec = JsonRpcCodec::new();
    let operation = A2AOperation::DiscoverAgent;
    let body = codec.encode_request(&operation).unwrap();
    let json = parse_json(&body).expect("valid JSON-RPC");
    let id = json.get("id").and_then(|v| v.as_str()).expect("string id");
    assert_eq!(id.chars().count(), 36);
}
