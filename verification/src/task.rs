//! Tasks: asynchronous units of work with a lifecycle.

use vstd::prelude::*;
use crate::error::{TaskError, TaskErrorView};
use crate::json::{JsonValue, JsonView};
use crate::message::{Message, MessagePart, MessagePartView, MessageView};

verus! {

broadcast use vstd::std_specs::vec::group_vec_axioms, vstd::seq::group_seq_axioms;

/// Task status in the protocol lifecycle.
///
/// Lifecycle: `submitted -> working -> completed | failed | cancelled |
/// rejected`; `input-required` and `auth-required` await the client.
#[derive(Debug, Clone, Copy, PartialEq, Eq, Structural, Hash)]
pub enum TaskStatus {
    /// Received and queued for processing.
    Submitted,
    /// Being processed.
    Working,
    /// Additional input from the client is required.
    InputRequired,
    /// Authentication or authorization is required.
    AuthRequired,
    /// Completed successfully.
    Completed,
    /// Failed with an error.
    Failed,
    /// Cancelled by the client.
    Cancelled,
    /// Rejected by the agent.
    Rejected,
}

impl View for TaskStatus {
    type V = TaskStatus;

    open spec fn view(&self) -> TaskStatus {
        *self
    }
}

impl DeepView for TaskStatus {
    type V = TaskStatus;

    open spec fn deep_view(&self) -> TaskStatus {
        *self
    }
}

/// Whether a status is terminal: no further transitions are expected.
pub open spec fn spec_status_terminal(s: TaskStatus) -> bool {
    s == TaskStatus::Completed || s == TaskStatus::Failed || s == TaskStatus::Cancelled
        || s == TaskStatus::Rejected
}

/// Whether a status awaits client action.
pub open spec fn spec_status_requires_action(s: TaskStatus) -> bool {
    s == TaskStatus::InputRequired || s == TaskStatus::AuthRequired
}

impl TaskStatus {
    /// Whether this is a terminal status.
    pub fn is_terminal(&self) -> (r: bool)
        ensures
            r == spec_status_terminal(*self),
    {
        match self {
            TaskStatus::Completed | TaskStatus::Failed | TaskStatus::Cancelled
                | TaskStatus::Rejected => true,
            _ => false,
        }
    }

    /// Whether this status requires client action.
    pub fn requires_action(&self) -> (r: bool)
        ensures
            r == spec_status_requires_action(*self),
    {
        match self {
            TaskStatus::InputRequired | TaskStatus::AuthRequired => true,
            _ => false,
        }
    }
}

/// Mathematical model of an [`Artifact`].
pub struct ArtifactView {
    pub artifact_id: Seq<char>,
    pub name: Option<Seq<char>>,
    pub description: Option<Seq<char>>,
    pub parts: Seq<MessagePartView>,
    pub metadata: Option<JsonView>,
    pub extensions: Seq<Seq<char>>,
}

/// A task output: an identifier and one or more parts.
#[derive(Debug, Clone, PartialEq)]
pub struct Artifact {
    /// Unique identifier of the artifact.
    pub artifact_id: String,
    /// Human-readable name.
    pub name: Option<String>,
    /// Human-readable description.
    pub description: Option<String>,
    /// Contents of the artifact.
    pub parts: Vec<MessagePart>,
    /// Free-form metadata.
    pub metadata: Option<JsonValue>,
    /// URIs of extensions present in this artifact.
    pub extensions: Vec<String>,
}

impl View for Artifact {
    type V = ArtifactView;

    open spec fn view(&self) -> ArtifactView {
        ArtifactView {
            artifact_id: self.artifact_id@,
            name: self.name.deep_view(),
            description: self.description.deep_view(),
            parts: self.parts.deep_view(),
            metadata: self.metadata.deep_view(),
            extensions: self.extensions.deep_view(),
        }
    }
}

impl DeepView for Artifact {
    type V = ArtifactView;

    open spec fn deep_view(&self) -> ArtifactView {
        self.view()
    }
}

/// Mathematical model of a [`Task`].
pub struct TaskView {
    pub id: Seq<char>,
    pub status: TaskStatus,
    pub input: MessageView,
    pub output: Option<MessageView>,
    pub error: Option<TaskErrorView>,
    pub created_at: Seq<char>,
    pub updated_at: Option<Seq<char>>,
    pub context_id: Option<Seq<char>>,
    pub artifacts: Seq<ArtifactView>,
    pub history: Seq<MessageView>,
}

/// An asynchronous unit of work performed by an agent.
#[derive(Debug, Clone, PartialEq)]
pub struct Task {
    /// Unique identifier.
    pub id: String,
    /// Current lifecycle status.
    pub status: TaskStatus,
    /// The input message that created the task.
    pub input: Message,
    /// Output message, present once the task completed.
    pub output: Option<Message>,
    /// Error information, present when the task failed.
    pub error: Option<TaskError>,
    /// When the task was created, as timestamp text.
    pub created_at: String,
    /// When the task was last updated, as timestamp text.
    pub updated_at: Option<String>,
    /// Optional context identifier grouping related tasks.
    pub context_id: Option<String>,
    /// Artifacts produced by the task.
    pub artifacts: Vec<Artifact>,
    /// Messages exchanged over the task's lifetime.
    pub history: Vec<Message>,
}

impl View for Task {
    type V = TaskView;

    open spec fn view(&self) -> TaskView {
        TaskView {
            id: self.id@,
            status: self.status,
            input: self.input@,
            output: self.output.deep_view(),
            error: self.error.deep_view(),
            created_at: self.created_at@,
            updated_at: self.updated_at.deep_view(),
            context_id: self.context_id.deep_view(),
            artifacts: self.artifacts.deep_view(),
            history: self.history.deep_view(),
        }
    }
}

impl DeepView for Task {
    type V = TaskView;

    open spec fn deep_view(&self) -> TaskView {
        self.view()
    }
}

/// Relies on chrono's `Utc::now` and `DateTime::to_rfc3339` for the current
/// time as timestamp text; the result depends on the clock.
#[verifier::external_body]
pub fn now_timestamp() -> (r: String)
    ensures
        r@.len() > 0,
{
    chrono::Utc::now().to_rfc3339()
}

impl Task {
    /// A new task, freshly submitted, created now.
    pub fn new(id: &str, input: Message) -> (r: Self)
        ensures
            r@.id == id@,
            r@.status == TaskStatus::Submitted,
            r@.input == input@,
            r@.output is None,
            r@.error is None,
            r@.updated_at is None,
            r@.context_id is None,
            r@.artifacts == Seq::<ArtifactView>::empty(),
            r@.history == Seq::<MessageView>::empty(),
    {
        let r = Task {
            id: id.to_owned(),
            status: TaskStatus::Submitted,
            input,
            output: None,
            error: None,
            created_at: now_timestamp(),
            updated_at: None,
            context_id: None,
            artifacts: Vec::new(),
            history: Vec::new(),
        };
        proof {
            assert(r@.artifacts =~= Seq::<ArtifactView>::empty());
            assert(r@.history =~= Seq::<MessageView>::empty());
        }
        r
    }

    /// Whether the task is in a terminal state.
    pub fn is_terminal(&self) -> (r: bool)
        ensures
            r == spec_status_terminal(self@.status),
    {
        self.status.is_terminal()
    }

    /// Whether the task is still processing.
    pub fn is_processing(&self) -> (r: bool)
        ensures
            r == (self@.status == TaskStatus::Submitted || self@.status == TaskStatus::Working),
    {
        match self.status {
            TaskStatus::Submitted | TaskStatus::Working => true,
            _ => false,
        }
    }

    /// Whether the task requires input from the client.
    pub fn requires_input(&self) -> (r: bool)
        ensures
            r == spec_status_requires_action(self@.status),
    {
        self.status.requires_action()
    }

    /// The task with its status updated; the update time is set to now.
    pub fn with_status(self, status: TaskStatus) -> (r: Self)
        ensures
            r@.status == status,
            r@.updated_at is Some,
            r@ == (TaskView { status, updated_at: r@.updated_at, ..self@ }),
    {
        Task { status, updated_at: Some(now_timestamp()), ..self }
    }

    /// The task with an output message; the update time is set to now.
    pub fn with_output(self, output: Message) -> (r: Self)
        ensures
            r@.output == Some(output@),
            r@.updated_at is Some,
            r@ == (TaskView { output: Some(output@), updated_at: r@.updated_at, ..self@ }),
    {
        Task { output: Some(output), updated_at: Some(now_timestamp()), ..self }
    }

    /// The task with an error; the update time is set to now.
    pub fn with_error(self, error: TaskError) -> (r: Self)
        ensures
            r@.error == Some(error@),
            r@.updated_at is Some,
            r@ == (TaskView { error: Some(error@), updated_at: r@.updated_at, ..self@ }),
    {
        Task { error: Some(error), updated_at: Some(now_timestamp()), ..self }
    }

    /// The task with a context identifier.
    pub fn with_context_id(self, context_id: &str) -> (r: Self)
        ensures
            r@ == (TaskView { context_id: Some(context_id@), ..self@ }),
    {
        Task { context_id: Some(context_id.to_owned()), ..self }
    }

    /// The task with one more artifact; the update time is set to now.
    pub fn with_artifact(self, artifact: Artifact) -> (r: Self)
        ensures
            r@.artifacts == self@.artifacts.push(artifact@),
            r@.updated_at is Some,
            r@ == (TaskView {
                artifacts: self@.artifacts.push(artifact@),
                updated_at: r@.updated_at,
                ..self@
            }),
    {
        let mut artifacts = self.artifacts;
        let ghost ga = artifacts.deep_view();
        artifacts.push(artifact);
        proof {
            assert(artifacts.deep_view() =~= ga.push(artifact@));
        }
        Task { artifacts, updated_at: Some(now_timestamp()), ..self }
    }

    /// The task with one more history message.
    pub fn with_history_message(self, message: Message) -> (r: Self)
        ensures
            r@.history == self@.history.push(message@),
            r@ == (TaskView { history: self@.history.push(message@), ..self@ }),
    {
        let mut history = self.history;
        let ghost gh = history.deep_view();
        history.push(message);
        proof {
            assert(history.deep_view() =~= gh.push(message@));
        }
        Task { history, ..self }
    }
}

/// Mathematical model of a [`SendMessageRequest`].
pub struct SendMessageRequestView {
    pub message: MessageView,
    pub stream: bool,
    pub context_id: Option<Seq<char>>,
    pub task_id: Option<Seq<char>>,
}

/// Request body for sending a message to an agent.
#[derive(Debug, Clone, PartialEq)]
pub struct SendMessageRequest {
    /// The message to send.
    pub message: Message,
    /// Whether to stream the response.
    pub stream: bool,
    /// Optional context identifier for multi-turn conversations.
    pub context_id: Option<String>,
    /// Optional task identifier to continue from.
    pub task_id: Option<String>,
}

impl View for SendMessageRequest {
    type V = SendMessageRequestView;

    open spec fn view(&self) -> SendMessageRequestView {
        SendMessageRequestView {
            message: self.message@,
            stream: self.stream,
            context_id: self.context_id.deep_view(),
            task_id: self.task_id.deep_view(),
        }
    }
}

/// Mathematical model of a [`TaskListResponse`].
pub struct TaskListResponseView {
    pub tasks: Seq<TaskView>,
    pub total: int,
    pub next_token: Option<Seq<char>>,
}

/// Response body from listing tasks.
#[derive(Debug, Clone, PartialEq)]
pub struct TaskListResponse {
    /// The tasks matching the query.
    pub tasks: Vec<Task>,
    /// Total number of tasks matching the query.
    pub total: usize,
    /// Optional continuation token for pagination.
    pub next_token: Option<String>,
}

impl View for TaskListResponse {
    type V = TaskListResponseView;

    open spec fn view(&self) -> TaskListResponseView {
        TaskListResponseView {
            tasks: self.tasks.deep_view(),
            total: self.total as int,
            next_token: self.next_token.deep_view(),
        }
    }
}

} // verus!
