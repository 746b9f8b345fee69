//! The validation layer's request and response checks.

use a2a_client::error::A2AError;
use a2a_client::message::{Message, MessagePart, FileContent};
use a2a_client::operation::A2AOperation;
use a2a_client::request::{A2ARequest, RequestContext};
use a2a_client::response::A2AResponse;
use a2a_client::task::Task;
use a2a_client::validation::{validate_request, validate_response};

fn send_request(message: Message) -> A2ARequest {
    let operation = A2AOperation::SendMessage {
        message,
        stream: false,
        context_id: None,
        task_id: None,
    };
    A2ARequest::new(operation, RequestContext::new("https://example.com"))
}

fn list_request(limit: Option<u32>, offset: Option<u32>) -> A2ARequest {
    let operation = A2AOperation::ListTasks { status: None, limit, offset, next_token: None };
    A2ARequest::new(operation, RequestContext::new("https://example.com"))
}

#[test]
fn test_validate_send_message() {
    let request = send_request(Message::user("Hello"));
    assert!(validate_request(&request).is_ok());
}

#[test]
fn test_validate_empty_message() {
    let mut message = Message::user("Test");
    message.parts.clear();

    let request = send_request(message);
    assert!(validate_request(&request).is_err());
}

#[test]
fn test_validate_task_response() {
    let task = Task::new("task-123", Message::user("Test"));
    let response = A2AResponse::Task(Box::new(task));

    assert!(validate_response(&response).is_ok());
}

#[test]
fn test_validate_list_limits() {
    let err = validate_request(&list_request(Some(0), None));
    assert!(matches!(err, Err(A2AError::Validation(_))));

    assert!(validate_request(&list_request(Some(1000), None)).is_ok());

    let err = validate_request(&list_request(Some(1001), None));
    assert!(matches!(err, Err(A2AError::Validation(_))));

    assert!(validate_request(&list_request(None, Some(1000000))).is_ok());
    let err = validate_request(&list_request(None, Some(1000001)));
    assert!(matches!(err, Err(A2AError::Validation(_))));
}

#[test]
fn test_validate_empty_text_part() {
    let mut message = Message::user("x");
    message.parts = vec![MessagePart::text("")];

    let result = validate_request(&send_request(message));
    match result {
        Err(A2AError::Validation(msg)) => assert_eq!(msg, "Text part cannot be empty"),
        _ => panic!("Expected Validation error"),
    }
}

#[test]
fn test_validate_file_part_without_content() {
    let mut message = Message::user("x");
    message.parts = vec![MessagePart::File {
        file: FileContent {
            media_type: None,
            name: "notes.txt".to_string(),
            file_with_uri: None,
            file_with_bytes: None,
        },
    }];

    let result = validate_request(&send_request(message));
    match result {
        Err(A2AError::Validation(msg)) => {
            assert_eq!(msg, "File must have either URI or bytes content")
        }
        _ => panic!("Expected Validation error"),
    }
}

#[test]
fn test_validate_empty_task_id() {
    let operation = A2AOperation::GetTask { task_id: "".to_string() };
    let request = A2ARequest::new(operation, RequestContext::new("https://example.com"));
    assert!(matches!(validate_request(&request), Err(A2AError::Validation(_))));
}

#[test]
fn test_validate_empty_agent_url() {
    let request = A2ARequest::new(
        A2AOperation::DiscoverAgent,
        RequestContext::new(""),
    );
    match validate_request(&request) {
        Err(A2AError::Validation(msg)) => assert_eq!(msg, "Agent URL cannot be empty"),
        _ => panic!("Expected Validation error"),
    }
}

#[test]
fn test_validate_webhook_request() {
    let operation = A2AOperation::RegisterWebhook {
        url: "".to_string(),
        events: vec!["task-completed".to_string()],
        auth: None,
    };
    let request = A2ARequest::new(operation, RequestContext::new("https://example.com"));
    assert!(matches!(validate_request(&request), Err(A2AError::Validation(_))));

    let operation = A2AOperation::RegisterWebhook {
        url: "https://hooks.example.com".to_string(),
        events: vec![],
        auth: None,
    };
    let request = A2ARequest::new(operation, RequestContext::new("https://example.com"));
    assert!(matches!(validate_request(&request), Err(A2AError::Validation(_))));
}

#[test]
fn test_validate_completed_task_needs_output() {
    let task = Task::new("task-1", Message::user("Test"))
        .with_status(a2a_client::task::TaskStatus::Completed);
    let response = A2AResponse::Task(Box::new(task));
    match validate_response(&response) {
        Err(A2AError::Validation(msg)) => {
            assert_eq!(msg, "Completed task must have artifacts or error")
        }
        _ => panic!("Expected Validation error"),
    }
}
