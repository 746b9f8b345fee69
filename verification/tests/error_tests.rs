//! The error taxonomy.

use a2a_client::error::{A2AError, TaskError};
use a2a_client::json::JsonValue;
use a2a_client::jsoncodec::{Codec, JsonCodec};
use a2a_client::operation::A2AOperation;

#[test]
fn test_task_error_construction() {
    let err = TaskError::new("INVALID_INPUT", "the input is bad").with_details(JsonValue::Obj(
        vec![("field".to_string(), JsonValue::Str("name".to_string()))],
    ));
    assert_eq!(err.code, "INVALID_INPUT");
    assert_eq!(err.message, "the input is bad");
    assert!(err.details.is_some());
}

#[test]
fn test_error_conversions() {
    let wrapped: A2AError = TaskError::new("PROCESSING_FAILED", "boom").into();
    assert!(matches!(wrapped, A2AError::Task { .. }));

    let other: A2AError = "something else".to_string().into();
    match other {
        A2AError::Other(msg) => assert_eq!(msg, "something else"),
        _ => panic!("Expected Other"),
    }
}

#[test]
fn test_serialization_error_on_malformed_body() {
    let codec = JsonCodec::new();
    let operation = A2AOperation::GetTask { task_id: "t-1".to_string() };

    let result = codec.decode_response("{\"nope\":true}", &operation);
    assert!(matches!(result, Err(A2AError::Serialization(_))));

    let result = codec.decode_response("not json at all", &operation);
    assert!(matches!(result, Err(A2AError::Serialization(_))));
}
