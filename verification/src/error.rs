//! Error taxonomy for protocol operations.

use vstd::prelude::*;
use crate::json::{JsonValue, JsonView};

verus! {

/// Mathematical model of a [`TaskError`].
pub struct TaskErrorView {
    pub code: Seq<char>,
    pub message: Seq<char>,
    pub details: Option<JsonView>,
}

/// Agent-reported task error with structured information.
#[derive(Debug, Clone, PartialEq)]
pub struct TaskError {
    /// Machine-readable error code.
    pub code: String,
    /// Human-readable error message.
    pub message: String,
    /// Optional structured details.
    pub details: Option<JsonValue>,
}

impl View for TaskError {
    type V = TaskErrorView;

    open spec fn view(&self) -> TaskErrorView {
        TaskErrorView {
            code: self.code@,
            message: self.message@,
            details: self.details.deep_view(),
        }
    }
}

impl DeepView for TaskError {
    type V = TaskErrorView;

    open spec fn deep_view(&self) -> TaskErrorView {
        self.view()
    }
}

impl TaskError {
    /// A task error with the given code and message and no details.
    pub fn new(code: &str, message: &str) -> (r: Self)
        ensures
            r@.code == code@,
            r@.message == message@,
            r@.details is None,
    {
        TaskError { code: code.to_owned(), message: message.to_owned(), details: None }
    }

    /// The same error, with structured details attached.
    pub fn with_details(self, details: JsonValue) -> (r: Self)
        ensures
            r@.code == self@.code,
            r@.message == self@.message,
            r@.details == Some(details@),
    {
        TaskError { details: Some(details), ..self }
    }
}

/// Mathematical model of an [`A2AError`].
pub enum A2AErrorView {
    Transport(Seq<char>),
    Protocol(Seq<char>),
    Validation(Seq<char>),
    Auth(Seq<char>),
    Task { source: TaskErrorView },
    Serialization(Seq<char>),
    Timeout,
    TaskNotFound { task_id: Seq<char> },
    AgentNotFound { agent_url: Seq<char> },
    RateLimitExceeded,
    Other(Seq<char>),
}

/// Error kinds a protocol operation can end with.
///
/// Each carries a human-readable message where one applies.
#[derive(Debug, Clone, PartialEq)]
pub enum A2AError {
    /// Network failure, connection refused, unclassified non-2xx status.
    Transport(String),
    /// Wire-format violation, JSON-RPC error, missing expected field.
    Protocol(String),
    /// Request or response breaks an invariant.
    Validation(String),
    /// Authentication or authorization failure.
    Auth(String),
    /// Agent-reported task error.
    Task { source: TaskError },
    /// JSON encode or decode failure.
    Serialization(String),
    /// Per-call deadline exceeded or polling cap reached.
    Timeout,
    /// A 404 with a resolvable task id.
    TaskNotFound { task_id: String },
    /// Discovery or connect failure targeting the agent URL.
    AgentNotFound { agent_url: String },
    /// A 429 status.
    RateLimitExceeded,
    /// Fallback with a message.
    Other(String),
}

impl View for A2AError {
    type V = A2AErrorView;

    open spec fn view(&self) -> A2AErrorView {
        match self {
            A2AError::Transport(m) => A2AErrorView::Transport(m@),
            A2AError::Protocol(m) => A2AErrorView::Protocol(m@),
            A2AError::Validation(m) => A2AErrorView::Validation(m@),
            A2AError::Auth(m) => A2AErrorView::Auth(m@),
            A2AError::Task { source } => A2AErrorView::Task { source: source@ },
            A2AError::Serialization(m) => A2AErrorView::Serialization(m@),
            A2AError::Timeout => A2AErrorView::Timeout,
            A2AError::TaskNotFound { task_id } => A2AErrorView::TaskNotFound {
                task_id: task_id@,
            },
            A2AError::AgentNotFound { agent_url } => A2AErrorView::AgentNotFound {
                agent_url: agent_url@,
            },
            A2AError::RateLimitExceeded => A2AErrorView::RateLimitExceeded,
            A2AError::Other(m) => A2AErrorView::Other(m@),
        }
    }
}

impl DeepView for A2AError {
    type V = A2AErrorView;

    open spec fn deep_view(&self) -> A2AErrorView {
        self.view()
    }
}

impl From<TaskError> for A2AError {
    /// Wrap an agent-reported task error.
    fn from(source: TaskError) -> (r: Self) {
        A2AError::Task { source }
    }
}

impl vstd::std_specs::convert::FromSpecImpl<TaskError> for A2AError {
    open spec fn obeys_from_spec() -> bool {
        true
    }

    open spec fn from_spec(source: TaskError) -> Self {
        A2AError::Task { source }
    }
}

impl From<String> for A2AError {
    /// A fallback error with the given message.
    fn from(message: String) -> (r: Self) {
        A2AError::Other(message)
    }
}

impl vstd::std_specs::convert::FromSpecImpl<String> for A2AError {
    open spec fn obeys_from_spec() -> bool {
        true
    }

    open spec fn from_spec(message: String) -> Self {
        A2AError::Other(message)
    }
}

} // verus!
