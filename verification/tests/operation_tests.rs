//! Operation route mapping.

use a2a_client::message::Message;
use a2a_client::operation::A2AOperation;

#[test]
fn test_operation_endpoints() {
    let op = A2AOperation::SendMessage {
        message: Message::user("test"),
        stream: false,
        context_id: None,
        task_id: None,
    };
    assert_eq!(op.endpoint(), "/tasks");
    assert_eq!(op.method(), "POST");

    let op = A2AOperation::GetTask { task_id: "task-123".to_string() };
    assert_eq!(op.endpoint(), "/tasks/task-123");
    assert_eq!(op.method(), "GET");

    let op = A2AOperation::DiscoverAgent;
    assert_eq!(op.endpoint(), "/.well-known/agent-card.json");
    assert_eq!(op.method(), "GET");
}

#[test]
fn test_operation_streaming() {
    let op = A2AOperation::SendMessage {
        message: Message::user("test"),
        stream: true,
        context_id: None,
        task_id: None,
    };
    assert!(op.is_streaming());

    let op = A2AOperation::GetTask { task_id: "task-123".to_string() };
    assert!(!op.is_streaming());
}

#[test]
fn test_operation_routes_all() {
    let op = A2AOperation::SendMessage {
        message: Message::user("m"),
        stream: false,
        context_id: None,
        task_id: Some("t-1".to_string()),
    };
    assert_eq!(op.endpoint(), "/tasks/t-1");
    assert_eq!(op.method(), "PUT");

    let op = A2AOperation::CancelTask { task_id: "t-2".to_string() };
    assert_eq!(op.endpoint(), "/tasks/t-2/cancel");
    assert_eq!(op.method(), "POST");

    let op = A2AOperation::SubscribeTask { task_id: "t-3".to_string() };
    assert_eq!(op.endpoint(), "/tasks/t-3/stream");
    assert_eq!(op.method(), "GET");
    assert!(op.is_streaming());

    let op = A2AOperation::RegisterWebhook {
        url: "https://hooks.example.com".to_string(),
        events: vec!["task-completed".to_string()],
        auth: None,
    };
    assert_eq!(op.endpoint(), "/webhooks");
    assert_eq!(op.method(), "POST");

    let op = A2AOperation::ListTasks { status: None, limit: None, offset: None, next_token: None };
    assert_eq!(op.endpoint(), "/tasks");
    assert_eq!(op.method(), "GET");
}
