//! Service-level responses.

use vstd::prelude::*;
use crate::agent::{AgentCard, AgentCardView};
use crate::task::{Task, TaskView};

verus! {

broadcast use vstd::std_specs::vec::group_vec_axioms, vstd::seq::group_seq_axioms;

/// Mathematical model of an [`A2AResponse`].
pub enum A2AResponseView {
    Task(TaskView),
    TaskList { tasks: Seq<TaskView>, total: int, next_token: Option<Seq<char>> },
    AgentCard(AgentCardView),
    Empty,
}

/// Response from a service operation.
#[derive(Debug, Clone, PartialEq)]
pub enum A2AResponse {
    /// A task, from sending a message, fetching or cancelling a task.
    Task(Box<Task>),
    /// A task list, from listing tasks.
    TaskList {
        /// The tasks matching the query.
        tasks: Vec<Task>,
        /// Total number of tasks matching the query.
        total: usize,
        /// Optional continuation token for pagination.
        next_token: Option<String>,
    },
    /// An agent card, from discovery.
    AgentCard(Box<AgentCard>),
    /// No payload.
    Empty,
}

impl View for A2AResponse {
    type V = A2AResponseView;

    open spec fn view(&self) -> A2AResponseView {
        match self {
            A2AResponse::Task(t) => A2AResponseView::Task(t@),
            A2AResponse::TaskList { tasks, total, next_token } => A2AResponseView::TaskList {
                tasks: tasks.deep_view(),
                total: *total as int,
                next_token: next_token.deep_view(),
            },
            A2AResponse::AgentCard(c) => A2AResponseView::AgentCard(c@),
            A2AResponse::Empty => A2AResponseView::Empty,
        }
    }
}

impl A2AResponse {
    /// The task carried by the response, if one is.
    pub fn into_task(self) -> (r: Option<Task>)
        ensures
            (match r {
                Some(t) => self@ == A2AResponseView::Task(t@),
                None => !(self@ is Task),
            }),
    {
        match self {
            A2AResponse::Task(t) => Some(*t),
            _ => None,
        }
    }

    /// The tasks carried by the response, if a list is.
    pub fn into_task_list(self) -> (r: Option<Vec<Task>>)
        ensures
            (match r {
                Some(ts) => self@ matches A2AResponseView::TaskList { tasks, .. }
                    && tasks == ts.deep_view(),
                None => !(self@ is TaskList),
            }),
    {
        match self {
            A2AResponse::TaskList { tasks, .. } => Some(tasks),
            _ => None,
        }
    }

    /// The agent card carried by the response, if one is.
    pub fn into_agent_card(self) -> (r: Option<AgentCard>)
        ensures
            (match r {
                Some(c) => self@ == A2AResponseView::AgentCard(c@),
                None => !(self@ is AgentCard),
            }),
    {
        match self {
            A2AResponse::AgentCard(c) => Some(*c),
            _ => None,
        }
    }

    /// Whether the response carries no payload.
    pub fn is_empty(&self) -> (r: bool)
        ensures
            r == (self@ is Empty),
    {
        match self {
            A2AResponse::Empty => true,
            _ => false,
        }
    }
}

} // verus!
