//! The service stack over a scripted transport, and the end-to-end
//! scenarios the protocol promises.

use a2a_client::builder::A2AClientBuilder;
use a2a_client::client::{AgentClient, ClientConfig};
use a2a_client::codec::task_to_value;
use a2a_client::error::A2AError;
use a2a_client::jsoncodec::JsonCodec;
use a2a_client::jsontext::print_json;
use a2a_client::message::Message;
use a2a_client::mux::{parse_frame, Multiplexer};
use a2a_client::operation::A2AOperation;
use a2a_client::request::{A2ARequest, RequestContext};
use a2a_client::response::A2AResponse;
use a2a_client::service::{A2AProtocolService, A2AService};
use a2a_client::task::{Artifact, Task, TaskStatus};
use a2a_client::transport::{MockTransport, TransportResponse};
use a2a_client::message::MessagePart;

fn task_body(task: &Task) -> String {
    print_json(&task_to_value(task))
}

fn ok_response(body: String) -> TransportResponse {
    TransportResponse::new(200).body(body)
}

#[test]
fn test_request_context_creation() {
    let context = RequestContext::new("https://example.com")
        .with_timeout(60000)
        .with_metadata("key", "value");

    assert_eq!(context.agent_url, "https://example.com");
    assert_eq!(context.timeout_ms, Some(60000));
    assert_eq!(
        context.metadata.iter().find(|(k, _)| k == "key").map(|(_, v)| v.as_str()),
        Some("value")
    );
}

#[test]
fn test_request_context_metadata_overwrites() {
    let context = RequestContext::new("https://example.com")
        .with_metadata("key", "first")
        .with_metadata("key", "second");

    let hits: Vec<&str> = context
        .metadata
        .iter()
        .filter(|(k, _)| k == "key")
        .map(|(_, v)| v.as_str())
        .collect();
    assert_eq!(hits, vec!["second"]);
}

#[test]
fn test_request_creation() {
    let operation = A2AOperation::SendMessage {
        message: Message::user("Test"),
        stream: false,
        context_id: None,
        task_id: None,
    };

    let context = RequestContext::new("https://example.com");
    let request = A2ARequest::new(operation, context);

    assert_eq!(request.context.agent_url, "https://example.com");
}

#[test]
fn test_response_task() {
    let task = Task::new("task-123", Message::user("Test"));
    let response = A2AResponse::Task(Box::new(task));

    assert!(matches!(response, A2AResponse::Task(_)));

    let extracted = response.into_task();
    assert!(extracted.is_some());
    assert_eq!(extracted.unwrap().id, "task-123");
}

#[test]
fn test_response_task_list() {
    let task1 = Task::new("task-1", Message::user("Test 1"));
    let task2 = Task::new("task-2", Message::user("Test 2"));

    let response = A2AResponse::TaskList {
        tasks: vec![task1, task2],
        total: 2,
        next_token: None,
    };

    let extracted = response.into_task_list();
    assert!(extracted.is_some());
    assert_eq!(extracted.unwrap().len(), 2);
}

#[test]
fn test_response_empty() {
    let response = A2AResponse::Empty;
    assert!(response.is_empty());
}

#[test]
fn test_service_send_message() {
    let task = Task::new("task-123", Message::user("Test"));
    let transport = MockTransport::new(vec![ok_response(task_body(&task))]);

    let mut service = A2AProtocolService::new(transport, JsonCodec::new());

    let operation = A2AOperation::SendMessage {
        message: Message::user("Hello"),
        stream: false,
        context_id: None,
        task_id: None,
    };

    let request = A2ARequest::new(operation, RequestContext::new("https://example.com"));
    let response = service.call(request).unwrap();

    match response {
        A2AResponse::Task(task) => {
            assert_eq!(task.id, "task-123");
        }
        _ => panic!("Expected Task response"),
    }
    assert_eq!(service.transport.request_count(), 1);
    assert_eq!(service.transport.seen[0].method, "POST");
    assert_eq!(service.transport.seen[0].endpoint, "/tasks");
}

#[test]
fn test_service_error_handling() {
    let error_body = "{\"message\": \"Unauthorized\"}".to_string();
    let transport = MockTransport::new(vec![TransportResponse::new(401).body(error_body)]);

    let mut service = A2AProtocolService::new(transport, JsonCodec::new());

    let operation = A2AOperation::GetTask { task_id: "task-123".to_string() };
    let request = A2ARequest::new(operation, RequestContext::new("https://example.com"));

    let result = service.call(request);

    assert!(result.is_err());
    assert!(matches!(result.unwrap_err(), A2AError::Auth(_)));
}

#[test]
fn test_status_error_mapping() {
    let not_found = "{\"message\": \"no such task\", \"taskId\": \"t-9\"}".to_string();
    let transport = MockTransport::new(vec![
        TransportResponse::new(404).body(not_found),
        TransportResponse::new(429).body("{\"message\": \"slow down\"}".to_string()),
        TransportResponse::new(500).body("{\"message\": \"boom\"}".to_string()),
    ]);
    let mut service = A2AProtocolService::new(transport, JsonCodec::new());

    let request = |id: &str| {
        A2ARequest::new(
            A2AOperation::GetTask { task_id: id.to_string() },
            RequestContext::new("https://example.com"),
        )
    };

    match service.call(request("t-9")) {
        Err(A2AError::TaskNotFound { task_id }) => assert_eq!(task_id, "t-9"),
        other => panic!("Expected TaskNotFound, got {other:?}"),
    }
    assert!(matches!(service.call(request("t-9")), Err(A2AError::RateLimitExceeded)));
    match service.call(request("t-9")) {
        Err(A2AError::Transport(msg)) => {
            assert!(msg.contains("500"));
            assert!(msg.contains("boom"));
        }
        other => panic!("Expected Transport error, got {other:?}"),
    }
}

#[test]
fn test_send_and_poll_until_complete() {
    let submitted = task_body(&Task::new("t-1", Message::user("hi")));
    let working = task_body(&Task::new("t-1", Message::user("hi")).with_status(
        TaskStatus::Working,
    ));
    let completed = task_body(
        &Task::new("t-1", Message::user("hi"))
            .with_status(TaskStatus::Completed)
            .with_artifact(Artifact {
                artifact_id: "a1".to_string(),
                name: None,
                description: None,
                parts: vec![MessagePart::text("hi")],
                metadata: None,
                extensions: vec![],
            }),
    );

    let transport = MockTransport::new(vec![
        ok_response(submitted),
        ok_response(working),
        ok_response(completed),
    ]);
    let service = A2AProtocolService::new(transport, JsonCodec::new());
    let mut client = AgentClient::new(service, ClientConfig::new("https://example.com"));

    let task = client.poll_until_complete("t-1".to_string(), 10, 10).unwrap();
    assert_eq!(task.status, TaskStatus::Completed);
    assert_eq!(task.artifacts.len(), 1);

    assert_eq!(client.service.transport.request_count(), 3);
    for req in &client.service.transport.seen {
        assert_eq!(req.method, "GET");
        assert_eq!(req.endpoint, "/tasks/t-1");
    }
}

#[test]
fn test_poll_until_complete_times_out() {
    let submitted = || task_body(&Task::new("t-1", Message::user("hi")));
    let transport = MockTransport::new(vec![
        ok_response(submitted()),
        ok_response(submitted()),
    ]);
    let service = A2AProtocolService::new(transport, JsonCodec::new());
    let mut client = AgentClient::new(service, ClientConfig::new("https://example.com"));

    let result = client.poll_until_complete("t-1".to_string(), 5, 2);
    assert!(matches!(result, Err(A2AError::Timeout)));
    assert_eq!(client.service.transport.request_count(), 2);
}

#[test]
fn test_auth_header_injected() {
    let task = Task::new("task-123", Message::user("Test"));
    let transport = MockTransport::new(vec![ok_response(task_body(&task))]);

    let mut client = A2AClientBuilder::new("https://example.com")
        .with_transport(transport)
        .with_codec(JsonCodec::new())
        .with_bearer_auth("xyz")
        .build()
        .unwrap();

    client.send_message(Message::user("hello")).unwrap();

    let seen = match &client.service {
        a2a_client::builder::ClientStack::WithAuth(auth) => &auth.inner.inner.transport.seen,
        _ => panic!("Expected an auth stack"),
    };
    assert_eq!(seen.len(), 1);
    assert!(seen[0]
        .headers
        .iter()
        .any(|(k, v)| k == "Authorization" && v == "Bearer xyz"));
    assert!(seen[0]
        .headers
        .iter()
        .any(|(k, v)| k == "A2A-Version" && v == "1.0"));
}

#[test]
fn test_websocket_multiplexing() {
    let mut mux = Multiplexer::new();
    assert!(mux.register("id-A"));
    assert!(mux.register("id-B"));
    assert!(!mux.register("id-A"), "duplicate registration is refused");

    let frame_b = "{\"jsonrpc\":\"2.0\",\"result\":{\"id\":\"t-B\",\"status\":\"submitted\",\"input\":{\"role\":\"user\",\"parts\":[{\"text\":\"b\"}]},\"createdAt\":\"2024-01-01T00:00:00Z\"},\"id\":\"id-B\"}";
    let frame_a = "{\"jsonrpc\":\"2.0\",\"result\":{\"id\":\"t-A\",\"status\":\"submitted\",\"input\":{\"role\":\"user\",\"parts\":[{\"text\":\"a\"}]},\"createdAt\":\"2024-01-01T00:00:00Z\"},\"id\":\"id-A\"}";

    // The agent answers in reverse order; each response reaches only its
    // own caller, identified by the envelope id.
    let (id_b, result_b) = parse_frame(frame_b).expect("well-formed frame");
    assert_eq!(id_b, "id-B");
    assert!(mux.deliver(&id_b));
    let task_b = a2a_client::codec::value_to_task(&result_b).expect("task payload");
    assert_eq!(task_b.id, "t-B");

    let (id_a, result_a) = parse_frame(frame_a).expect("well-formed frame");
    assert_eq!(id_a, "id-A");
    assert!(mux.deliver(&id_a));
    let task_a = a2a_client::codec::value_to_task(&result_a).expect("task payload");
    assert_eq!(task_a.id, "t-A");

    // A late frame for an already-served id finds no responder.
    assert!(!mux.deliver("id-B"));
    assert_eq!(mux.pending_count(), 0);
}
