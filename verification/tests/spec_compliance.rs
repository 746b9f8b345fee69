//! Wire-format compliance: key names, enum spellings, omitted options.

use a2a_client::codec::{message_to_value, part_to_value, task_to_value, value_to_message};
use a2a_client::json::JsonValue;
use a2a_client::jsontext::{parse_json, print_json};
use a2a_client::message::{Message, MessagePart, Role};
use a2a_client::task::{Artifact, Task, TaskStatus};

fn obj_get<'a>(v: &'a JsonValue, key: &str) -> Option<&'a JsonValue> {
    v.get(key)
}

fn str_of(v: &JsonValue) -> &str {
    v.as_str().expect("string value").as_str()
}

#[test]
fn test_role_serialization() {
    let user_msg = Message::user("Hello");
    let json = message_to_value(&user_msg);
    assert_eq!(str_of(obj_get(&json, "role").unwrap()), "user");

    let agent_msg = Message::agent("Hi there");
    let json = message_to_value(&agent_msg);
    assert_eq!(str_of(obj_get(&json, "role").unwrap()), "agent");
}

#[test]
fn test_message_part_text_serialization() {
    let part = MessagePart::text("Hello, world!");
    let json = part_to_value(&part);

    assert_eq!(str_of(obj_get(&json, "text").unwrap()), "Hello, world!");
    assert!(obj_get(&json, "mimeType").is_none());
}

#[test]
fn test_message_part_file_serialization() {
    let part = MessagePart::file_with_type(
        "document.pdf",
        "https://example.com/doc.pdf",
        "application/pdf",
    );
    let json = part_to_value(&part);

    let file = obj_get(&json, "file").expect("nested file structure");
    assert_eq!(str_of(obj_get(file, "name").unwrap()), "document.pdf");
    assert_eq!(
        str_of(obj_get(file, "fileWithUri").unwrap()),
        "https://example.com/doc.pdf"
    );
    assert_eq!(str_of(obj_get(file, "mediaType").unwrap()), "application/pdf");

    assert!(obj_get(&json, "fileUri").is_none());
    assert!(obj_get(&json, "mimeType").is_none());
}

#[test]
fn test_message_part_file_with_bytes_serialization() {
    let part = MessagePart::file_with_bytes(
        "image.png",
        "base64encodeddata==",
        Some("image/png".to_string()),
    );
    let json = part_to_value(&part);

    let file = obj_get(&json, "file").expect("nested file structure");
    assert_eq!(str_of(obj_get(file, "name").unwrap()), "image.png");
    assert_eq!(str_of(obj_get(file, "fileWithBytes").unwrap()), "base64encodeddata==");
    assert_eq!(str_of(obj_get(file, "mediaType").unwrap()), "image/png");
    assert!(obj_get(file, "fileWithUri").is_none());
}

#[test]
fn test_message_part_data_serialization() {
    let data = JsonValue::Obj(vec![
        ("key".to_string(), JsonValue::Str("value".to_string())),
        ("count".to_string(), JsonValue::Int(42)),
    ]);
    let part = MessagePart::data(data.clone());
    let json = part_to_value(&part);

    assert_eq!(obj_get(&json, "data"), Some(&data));
    assert!(obj_get(&json, "mimeType").is_none());
}

#[test]
fn test_message_field_naming() {
    let msg = Message::builder()
        .role(Role::User)
        .part(MessagePart::text("Test"))
        .message_id("msg-123")
        .task_id("task-456")
        .context_id("ctx-789")
        .build();

    let json = message_to_value(&msg);

    assert_eq!(str_of(obj_get(&json, "messageId").unwrap()), "msg-123");
    assert_eq!(str_of(obj_get(&json, "taskId").unwrap()), "task-456");
    assert_eq!(str_of(obj_get(&json, "contextId").unwrap()), "ctx-789");

    assert!(obj_get(&json, "message_id").is_none());
    assert!(obj_get(&json, "task_id").is_none());
    assert!(obj_get(&json, "context_id").is_none());
}

#[test]
fn test_task_status_serialization() {
    let msg = Message::user("Test");

    let task = Task::new("task-123", msg.clone()).with_status(TaskStatus::InputRequired);
    let json = task_to_value(&task);
    assert_eq!(str_of(obj_get(&json, "status").unwrap()), "input-required");

    let task = Task::new("task-124", msg.clone()).with_status(TaskStatus::AuthRequired);
    let json = task_to_value(&task);
    assert_eq!(str_of(obj_get(&json, "status").unwrap()), "auth-required");

    let task = Task::new("task-125", msg);
    let json = task_to_value(&task);
    assert_eq!(str_of(obj_get(&json, "status").unwrap()), "submitted");
}

#[test]
fn test_task_field_naming() {
    let msg = Message::user("Test");
    let task = Task::new("task-123", msg).with_context_id("ctx-456");
    let json = task_to_value(&task);

    assert!(obj_get(&json, "createdAt").is_some());
    assert!(obj_get(&json, "contextId").is_some());

    assert!(obj_get(&json, "created_at").is_none());
    assert!(obj_get(&json, "context_id").is_none());
}

#[test]
fn test_task_artifacts_field() {
    let msg = Message::user("Test");
    let artifact = Artifact {
        artifact_id: "artifact-1".to_string(),
        name: Some("result".to_string()),
        description: None,
        parts: vec![MessagePart::text("Output")],
        metadata: None,
        extensions: vec![],
    };

    let task = Task::new("task-123", msg).with_artifact(artifact);
    let json = task_to_value(&task);

    let artifacts = obj_get(&json, "artifacts").expect("artifacts field");
    match artifacts {
        JsonValue::Arr(items) => {
            assert_eq!(items.len(), 1);
            assert_eq!(str_of(obj_get(&items[0], "artifact_id").unwrap()), "artifact-1");
        }
        _ => panic!("Expected artifacts array"),
    }
}

#[test]
fn test_task_history_field() {
    let msg = Message::user("Test");
    let history_msg = Message::agent("Response");

    let task = Task::new("task-123", msg).with_history_message(history_msg);
    let json = task_to_value(&task);

    let history = obj_get(&json, "history").expect("history field");
    match history {
        JsonValue::Arr(items) => {
            assert_eq!(items.len(), 1);
            assert_eq!(str_of(obj_get(&items[0], "role").unwrap()), "agent");
        }
        _ => panic!("Expected history array"),
    }
}

#[test]
fn test_optional_fields_omitted() {
    let msg = Message::user("Test");
    let json = message_to_value(&msg);

    assert!(obj_get(&json, "messageId").is_none());
    assert!(obj_get(&json, "taskId").is_none());
    assert!(obj_get(&json, "contextId").is_none());
    assert!(obj_get(&json, "metadata").is_none());
    assert!(obj_get(&json, "extensions").is_none());
}

#[test]
fn test_message_deserialization_from_spec_example() {
    let spec_json = "{\"role\":\"user\",\"parts\":[{\"text\":\"What is the weather?\"},{\"file\":{\"name\":\"image.jpg\",\"mediaType\":\"image/jpeg\",\"fileWithUri\":\"https://example.com/image.jpg\"}}],\"messageId\":\"msg-123\",\"contextId\":\"ctx-456\"}";

    let v = parse_json(spec_json).expect("valid JSON");
    let msg = value_to_message(&v).expect("valid message");
    assert_eq!(msg.role, Role::User);
    assert_eq!(msg.parts.len(), 2);
    assert_eq!(msg.message_id, Some("msg-123".to_string()));
    assert_eq!(msg.context_id, Some("ctx-456".to_string()));

    match &msg.parts[1] {
        MessagePart::File { file } => {
            assert_eq!(file.name, "image.jpg");
            assert_eq!(file.media_type, Some("image/jpeg".to_string()));
            assert_eq!(
                file.file_with_uri,
                Some("https://example.com/image.jpg".to_string())
            );
        }
        _ => panic!("Expected File part"),
    }
}

#[test]
fn test_round_trip_serialization() {
    let original = Message::builder()
        .role(Role::Agent)
        .part(MessagePart::text("Hello"))
        .part(MessagePart::file("doc.pdf", "https://example.com/doc.pdf"))
        .part(MessagePart::data(JsonValue::Obj(vec![(
            "key".to_string(),
            JsonValue::Str("value".to_string()),
        )])))
        .message_id("msg-123")
        .build();

    let json = print_json(&message_to_value(&original));
    let v = parse_json(&json).expect("valid JSON");
    let deserialized = value_to_message(&v).expect("valid message");

    assert_eq!(original, deserialized);
}
