//! Message construction and serialization.

use a2a_client::json::JsonValue;
use a2a_client::jsontext::{parse_json, print_json};
use a2a_client::codec::{message_to_value, value_to_message};
use a2a_client::message::{Message, MessagePart, Role};

fn to_json_text(msg: &Message) -> String {
    print_json(&message_to_value(msg))
}

fn from_json_text(text: &str) -> Message {
    let v = parse_json(text).expect("valid JSON");
    value_to_message(&v).expect("valid message document")
}

#[test]
fn test_message_creation() {
    let msg = Message::user("Hello, agent!");
    assert_eq!(msg.role, Role::User);
    assert_eq!(msg.parts.len(), 1);

    match &msg.parts[0] {
        MessagePart::Text { text } => assert_eq!(text, "Hello, agent!"),
        _ => panic!("Expected text part"),
    }
}

#[test]
fn test_message_with_metadata() {
    let msg = Message::user("Test")
        .with_metadata("key", JsonValue::Str("value".to_string()))
        .with_extension(
            "ext",
            JsonValue::Obj(vec![("enabled".to_string(), JsonValue::Bool(true))]),
        );

    assert!(msg.metadata.is_some());
    assert!(msg.extensions.is_some());
}

#[test]
fn test_message_serialization() {
    let msg = Message::user("Test message");
    let json = to_json_text(&msg);
    assert!(json.contains("\"role\":\"user\""));
    assert!(json.contains("\"text\":\"Test message\""));

    let deserialized = from_json_text(&json);
    assert_eq!(msg, deserialized);
}

#[test]
fn test_message_part_types() {
    let text = MessagePart::text("Hello");
    let file = MessagePart::file("myfile.txt", "file://path/to/file");
    let data = MessagePart::data(JsonValue::Obj(vec![(
        "key".to_string(),
        JsonValue::Str("value".to_string()),
    )]));

    assert!(matches!(text, MessagePart::Text { .. }));
    assert!(matches!(file, MessagePart::File { .. }));
    assert!(matches!(data, MessagePart::Data { .. }));
}

#[test]
fn test_message_builder() {
    let msg = Message::builder()
        .role(Role::Agent)
        .parts(vec![MessagePart::text("Hello")])
        .message_id("msg-123")
        .task_id("task-456")
        .context_id("ctx-789")
        .build();

    assert_eq!(msg.role, Role::Agent);
    assert_eq!(msg.parts.len(), 1);
    assert_eq!(msg.message_id, Some("msg-123".to_string()));
    assert_eq!(msg.task_id, Some("task-456".to_string()));
    assert_eq!(msg.context_id, Some("ctx-789".to_string()));
}

#[test]
fn test_message_builder_with_part() {
    let msg = Message::builder()
        .role(Role::Agent)
        .part(MessagePart::text("First"))
        .part(MessagePart::text("Second"))
        .build();

    assert_eq!(msg.parts.len(), 2);
}

#[test]
fn test_message_serialization_with_ids() {
    let msg = Message::builder()
        .role(Role::User)
        .parts(vec![MessagePart::text("Test")])
        .message_id("msg-123")
        .task_id("task-456")
        .build();

    let json = to_json_text(&msg);
    assert!(json.contains("\"messageId\":\"msg-123\""));
    assert!(json.contains("\"taskId\":\"task-456\""));

    let deserialized = from_json_text(&json);
    assert_eq!(msg, deserialized);
}
