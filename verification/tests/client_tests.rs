//! The client façade over a scripted transport.

use a2a_client::agentcodec::card_to_value;
use a2a_client::agent::{AgentCapabilities, AgentCard, EndpointConfig};
use a2a_client::client::{AgentClient, ClientConfig};
use a2a_client::codec::task_to_value;
use a2a_client::jsoncodec::JsonCodec;
use a2a_client::jsontext::print_json;
use a2a_client::message::Message;
use a2a_client::service::A2AProtocolService;
use a2a_client::task::Task;
use a2a_client::transport::{MockTransport, TransportResponse};

fn client_with_body(
    body: String,
) -> AgentClient<A2AProtocolService<MockTransport, JsonCodec>> {
    let transport = MockTransport::new(vec![TransportResponse::new(200).body(body)]);
    let service = A2AProtocolService::new(transport, JsonCodec::new());
    AgentClient::new(service, ClientConfig::new("https://example.com"))
}

#[test]
fn test_send_message() {
    let task = Task::new("task-123", Message::user("Test"));
    let mut client = client_with_body(print_json(&task_to_value(&task)));

    let message = Message::user("Hello");
    let task = client.send_message(message).unwrap();

    assert_eq!(task.id, "task-123");
}

#[test]
fn test_get_task() {
    let task = Task::new("task-456", Message::user("Test"));
    let mut client = client_with_body(print_json(&task_to_value(&task)));

    let task = client.get_task("task-456".to_string()).unwrap();

    assert_eq!(task.id, "task-456");
}

#[test]
fn test_discover() {
    let card = AgentCard::new("Test Agent", "A test agent", AgentCapabilities::new())
        .with_endpoint("http", EndpointConfig::new("https://example.com", "http+json"));
    let mut client = client_with_body(print_json(&card_to_value(&card)));

    let card = client.discover().unwrap();

    assert_eq!(card.name, "Test Agent");
}

#[test]
fn test_cancel_task() {
    let task = Task::new("task-9", Message::user("Test"))
        .with_status(a2a_client::task::TaskStatus::Cancelled);
    let mut client = client_with_body(print_json(&task_to_value(&task)));

    let task = client.cancel_task("task-9".to_string()).unwrap();
    assert_eq!(task.status, a2a_client::task::TaskStatus::Cancelled);
}

#[test]
fn test_list_tasks() {
    let t1 = Task::new("t-1", Message::user("one"));
    let t2 = Task::new("t-2", Message::user("two"));
    let body = format!(
        "{{\"tasks\":[{},{}],\"total\":2}}",
        print_json(&task_to_value(&t1)),
        print_json(&task_to_value(&t2))
    );
    let mut client = client_with_body(body);

    let tasks = client.list_all_tasks().unwrap();
    assert_eq!(tasks.len(), 2);
    assert_eq!(tasks[0].id, "t-1");
    assert_eq!(tasks[1].id, "t-2");
}
