//! Abstract protocol operations and their route mapping.

use vstd::prelude::*;
use crate::message::{Message, MessageView};
use crate::task::TaskStatus;

verus! {

broadcast use vstd::std_specs::vec::group_vec_axioms, vstd::seq::group_seq_axioms;

/// Mathematical model of an [`A2AOperation`].
pub enum A2AOperationView {
    SendMessage {
        message: MessageView,
        stream: bool,
        context_id: Option<Seq<char>>,
        task_id: Option<Seq<char>>,
    },
    GetTask { task_id: Seq<char> },
    ListTasks {
        status: Option<TaskStatus>,
        limit: Option<u32>,
        offset: Option<u32>,
        next_token: Option<Seq<char>>,
    },
    CancelTask { task_id: Seq<char> },
    DiscoverAgent,
    SubscribeTask { task_id: Seq<char> },
    RegisterWebhook { url: Seq<char>, events: Seq<Seq<char>>, auth: Option<Seq<char>> },
}

/// The abstract operations the client may issue, independent of binding.
#[derive(Debug, Clone, PartialEq)]
pub enum A2AOperation {
    /// Send a message to an agent.
    SendMessage {
        /// The message to send.
        message: Message,
        /// Whether to stream the response.
        stream: bool,
        /// Optional context identifier for multi-turn conversations.
        context_id: Option<String>,
        /// Optional task identifier to continue from.
        task_id: Option<String>,
    },
    /// Fetch a task by identifier.
    GetTask {
        /// The task to retrieve.
        task_id: String,
    },
    /// List tasks with optional filtering.
    ListTasks {
        /// Filter by status.
        status: Option<TaskStatus>,
        /// Maximum number of tasks to return.
        limit: Option<u32>,
        /// Offset for pagination.
        offset: Option<u32>,
        /// Continuation token for pagination.
        next_token: Option<String>,
    },
    /// Cancel a task.
    CancelTask {
        /// The task to cancel.
        task_id: String,
    },
    /// Fetch the agent card.
    DiscoverAgent,
    /// Subscribe to task updates (streaming).
    SubscribeTask {
        /// The task to subscribe to.
        task_id: String,
    },
    /// Register a webhook for push notifications.
    RegisterWebhook {
        /// The webhook URL.
        url: String,
        /// Events to subscribe to.
        events: Vec<String>,
        /// Optional authentication material for webhook calls.
        auth: Option<String>,
    },
}

impl View for A2AOperation {
    type V = A2AOperationView;

    open spec fn view(&self) -> A2AOperationView {
        match self {
            A2AOperation::SendMessage { message, stream, context_id, task_id } =>
                A2AOperationView::SendMessage {
                    message: message@,
                    stream: *stream,
                    context_id: context_id.deep_view(),
                    task_id: task_id.deep_view(),
                },
            A2AOperation::GetTask { task_id } => A2AOperationView::GetTask {
                task_id: task_id@,
            },
            A2AOperation::ListTasks { status, limit, offset, next_token } =>
                A2AOperationView::ListTasks {
                    status: status.deep_view(),
                    limit: limit.deep_view(),
                    offset: offset.deep_view(),
                    next_token: next_token.deep_view(),
                },
            A2AOperation::CancelTask { task_id } => A2AOperationView::CancelTask {
                task_id: task_id@,
            },
            A2AOperation::DiscoverAgent => A2AOperationView::DiscoverAgent,
            A2AOperation::SubscribeTask { task_id } => A2AOperationView::SubscribeTask {
                task_id: task_id@,
            },
            A2AOperation::RegisterWebhook { url, events, auth } =>
                A2AOperationView::RegisterWebhook {
                    url: url@,
                    events: events.deep_view(),
                    auth: auth.deep_view(),
                },
        }
    }
}

impl DeepView for A2AOperation {
    type V = A2AOperationView;

    open spec fn deep_view(&self) -> A2AOperationView {
        self.view()
    }
}

/// The endpoint path of an operation.
pub open spec fn spec_endpoint(op: A2AOperationView) -> Seq<char> {
    match op {
        A2AOperationView::SendMessage { task_id, .. } => match task_id {
            Some(id) => "/tasks/"@ + id,
            None => "/tasks"@,
        },
        A2AOperationView::GetTask { task_id } => "/tasks/"@ + task_id,
        A2AOperationView::ListTasks { .. } => "/tasks"@,
        A2AOperationView::CancelTask { task_id } => "/tasks/"@ + task_id + "/cancel"@,
        A2AOperationView::DiscoverAgent => "/.well-known/agent-card.json"@,
        A2AOperationView::SubscribeTask { task_id } => "/tasks/"@ + task_id + "/stream"@,
        A2AOperationView::RegisterWebhook { .. } => "/webhooks"@,
    }
}

/// The HTTP method of an operation.
pub open spec fn spec_method(op: A2AOperationView) -> Seq<char> {
    match op {
        A2AOperationView::SendMessage { task_id, .. } => match task_id {
            Some(_) => "PUT"@,
            None => "POST"@,
        },
        A2AOperationView::GetTask { .. } => "GET"@,
        A2AOperationView::ListTasks { .. } => "GET"@,
        A2AOperationView::CancelTask { .. } => "POST"@,
        A2AOperationView::DiscoverAgent => "GET"@,
        A2AOperationView::SubscribeTask { .. } => "GET"@,
        A2AOperationView::RegisterWebhook { .. } => "POST"@,
    }
}

/// Whether an operation expects a streaming response.
pub open spec fn spec_is_streaming(op: A2AOperationView) -> bool {
    (op matches A2AOperationView::SendMessage { stream, .. } && stream)
        || op is SubscribeTask
}

impl A2AOperation {
    /// The endpoint path for this operation.
    pub fn endpoint(&self) -> (r: String)
        ensures
            r@ == spec_endpoint(self@),
    {
        match self {
            A2AOperation::SendMessage { task_id, .. } => match task_id {
                Some(id) => {
                    let mut r = String::from_str("/tasks/");
                    r.append(id.as_str());
                    r
                },
                None => String::from_str("/tasks"),
            },
            A2AOperation::GetTask { task_id } => {
                let mut r = String::from_str("/tasks/");
                r.append(task_id.as_str());
                r
            },
            A2AOperation::ListTasks { .. } => String::from_str("/tasks"),
            A2AOperation::CancelTask { task_id } => {
                let mut r = String::from_str("/tasks/");
                r.append(task_id.as_str());
                r.append("/cancel");
                r
            },
            A2AOperation::DiscoverAgent => String::from_str("/.well-known/agent-card.json"),
            A2AOperation::SubscribeTask { task_id } => {
                let mut r = String::from_str("/tasks/");
                r.append(task_id.as_str());
                r.append("/stream");
                r
            },
            A2AOperation::RegisterWebhook { .. } => String::from_str("/webhooks"),
        }
    }

    /// The HTTP method for this operation.
    pub fn method(&self) -> (r: &'static str)
        ensures
            r@ == spec_method(self@),
    {
        match self {
            A2AOperation::SendMessage { task_id, .. } => match task_id {
                Some(_) => "PUT",
                None => "POST",
            },
            A2AOperation::GetTask { .. } => "GET",
            A2AOperation::ListTasks { .. } => "GET",
            A2AOperation::CancelTask { .. } => "POST",
            A2AOperation::DiscoverAgent => "GET",
            A2AOperation::SubscribeTask { .. } => "GET",
            A2AOperation::RegisterWebhook { .. } => "POST",
        }
    }

    /// Whether this operation expects a streaming response.
    pub fn is_streaming(&self) -> (r: bool)
        ensures
            r == spec_is_streaming(self@),
    {
        match self {
            A2AOperation::SendMessage { stream, .. } => *stream,
            A2AOperation::SubscribeTask { .. } => true,
            _ => false,
        }
    }
}

/// A path is route-shaped when it is non-empty and begins with a slash.
pub open spec fn spec_valid_path(p: Seq<char>) -> bool {
    p.len() > 0 && p[0] == '/'
}

/// Every operation routes to a well-formed path and one of the three
/// methods `GET`, `POST` and `PUT`.
pub proof fn lemma_operation_route_wf(op: A2AOperationView)
    ensures
        spec_valid_path(spec_endpoint(op)),
        spec_method(op) == "GET"@ || spec_method(op) == "POST"@ || spec_method(op) == "PUT"@,
{
    reveal_strlit("/tasks/");
    reveal_strlit("/tasks");
    reveal_strlit("/.well-known/agent-card.json");
    reveal_strlit("/webhooks");
}

} // verus!
