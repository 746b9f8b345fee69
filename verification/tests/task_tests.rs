//! Task lifecycle and serialization.

use a2a_client::codec::{task_to_value, value_to_task};
use a2a_client::jsontext::{parse_json, print_json};
use a2a_client::message::Message;
use a2a_client::task::{Task, TaskStatus};

#[test]
fn test_task_creation() {
    let msg = Message::user("Test");
    let task = Task::new("task-123", msg);

    assert_eq!(task.id, "task-123");
    assert_eq!(task.status, TaskStatus::Submitted);
    assert!(!task.is_terminal());
    assert!(task.is_processing());
}

#[test]
fn test_task_lifecycle() {
    let msg = Message::user("Test");
    let task = Task::new("task-123", msg);

    let task = task.with_status(TaskStatus::Working);
    assert_eq!(task.status, TaskStatus::Working);
    assert!(task.is_processing());

    let task = task.with_status(TaskStatus::Completed);
    assert!(task.is_terminal());
    assert!(!task.is_processing());
}

#[test]
fn test_task_status() {
    assert!(TaskStatus::Completed.is_terminal());
    assert!(TaskStatus::Failed.is_terminal());
    assert!(!TaskStatus::Working.is_terminal());

    assert!(TaskStatus::InputRequired.requires_action());
    assert!(TaskStatus::AuthRequired.requires_action());
    assert!(!TaskStatus::Working.requires_action());
}

#[test]
fn test_task_serialization() {
    let msg = Message::user("Test");
    let task = Task::new("task-123", msg);

    let json = print_json(&task_to_value(&task));
    assert!(json.contains("\"id\":\"task-123\""));
    assert!(json.contains("\"status\":\"submitted\""));

    let v = parse_json(&json).expect("valid JSON");
    let deserialized = value_to_task(&v).expect("valid task");
    assert_eq!(task.id, deserialized.id);
    assert_eq!(task.status, deserialized.status);
}

#[test]
fn test_task_full_round_trip() {
    let msg = Message::user("Test");
    let task = Task::new("task-9", msg)
        .with_status(TaskStatus::Completed)
        .with_output(Message::agent("done"))
        .with_context_id("ctx-1");

    let json = print_json(&task_to_value(&task));
    let v = parse_json(&json).expect("valid JSON");
    let deserialized = value_to_task(&v).expect("valid task");
    assert_eq!(task, deserialized);
}

#[test]
fn test_task_requires_input() {
    let msg = Message::user("Test");
    let task = Task::new("task-123", msg).with_status(TaskStatus::InputRequired);
    assert!(task.requires_input());
    assert!(!task.is_terminal());
}
