//! The client façade: one method per operation, and the polling loop.

use vstd::prelude::*;
use crate::agent::AgentCard;
use crate::error::A2AError;
use crate::message::Message;
use crate::operation::A2AOperation;
use crate::request::{A2ARequest, RequestContext, RequestContextView};
use crate::response::A2AResponse;
use crate::service::A2AService;
use crate::task::{Task, TaskStatus, spec_status_terminal};

verus! {

broadcast use vstd::std_specs::vec::group_vec_axioms, vstd::seq::group_seq_axioms;

/// Mathematical model of a [`ClientConfig`].
pub struct ClientConfigView {
    pub agent_url: Seq<char>,
    pub timeout_ms: u64,
    pub max_retries: u32,
    pub validate_responses: bool,
}

/// Client configuration: target URL, default timeout, retry cap, response
/// validation.
#[derive(Debug, Clone, PartialEq)]
pub struct ClientConfig {
    /// Base URL of the agent.
    pub agent_url: String,
    /// Default request timeout, in milliseconds.
    pub timeout_ms: u64,
    /// Maximum number of retry attempts.
    pub max_retries: u32,
    /// Whether responses are validated.
    pub validate_responses: bool,
}

impl View for ClientConfig {
    type V = ClientConfigView;

    open spec fn view(&self) -> ClientConfigView {
        ClientConfigView {
            agent_url: self.agent_url@,
            timeout_ms: self.timeout_ms,
            max_retries: self.max_retries,
            validate_responses: self.validate_responses,
        }
    }
}

impl ClientConfig {
    /// A configuration for the given agent URL, with the defaults: a
    /// thirty-second timeout, three retries, validation on.
    pub fn new(agent_url: &str) -> (r: Self)
        ensures
            r@ == (ClientConfigView {
                agent_url: agent_url@,
                timeout_ms: 30000,
                max_retries: 3,
                validate_responses: true,
            }),
    {
        ClientConfig {
            agent_url: agent_url.to_owned(),
            timeout_ms: 30000,
            max_retries: 3,
            validate_responses: true,
        }
    }

    /// The configuration with another timeout.
    pub fn with_timeout(self, timeout_ms: u64) -> (r: Self)
        ensures
            r@ == (ClientConfigView { timeout_ms, ..self@ }),
    {
        ClientConfig { timeout_ms, ..self }
    }

    /// The configuration with another retry cap.
    pub fn with_max_retries(self, max_retries: u32) -> (r: Self)
        ensures
            r@ == (ClientConfigView { max_retries, ..self@ }),
    {
        ClientConfig { max_retries, ..self }
    }

    /// The configuration with response validation on or off.
    pub fn with_validation(self, enabled: bool) -> (r: Self)
        ensures
            r@ == (ClientConfigView { validate_responses: enabled, ..self@ }),
    {
        ClientConfig { validate_responses: enabled, ..self }
    }
}

/// The client: a configured service stack and one method per operation.
///
/// Each method builds the operation, hands it to the service, and checks
/// that the response kind fits; what the agent answers is the service's
/// and transport's affair, so these methods promise only the shape of
/// what they accept.
#[derive(Debug)]
pub struct AgentClient<S> {
    /// The service stack that executes requests.
    pub service: S,
    /// The client configuration.
    pub config: ClientConfig,
}

impl<S: A2AService> AgentClient<S> {
    /// A client over the given service and configuration.
    pub fn new(service: S, config: ClientConfig) -> (r: Self)
        ensures
            r.service == service,
            r.config == config,
    {
        AgentClient { service, config }
    }

    /// The client configuration.
    pub fn config(&self) -> (r: &ClientConfig)
        ensures
            r == &self.config,
    {
        &self.config
    }

    /// The request context the configuration implies; credentials are
    /// attached by the auth layer.
    pub fn build_context(&self) -> (r: RequestContext)
        ensures
            r@ == (RequestContextView {
                agent_url: self.config@.agent_url,
                auth: None,
                timeout_ms: Some(self.config@.timeout_ms),
                metadata: Seq::empty(),
            }),
    {
        let r = RequestContext {
            agent_url: self.config.agent_url.clone(),
            auth: None,
            timeout_ms: Some(self.config.timeout_ms),
            metadata: Vec::new(),
        };
        proof {
            assert(r@.metadata =~= Seq::<(Seq<char>, Seq<char>)>::empty());
        }
        r
    }

    /// Send a message; the agent answers with the task it opened.
    pub fn send_message(&mut self, message: Message) -> Result<Task, A2AError> {
        let operation = A2AOperation::SendMessage {
            message,
            stream: false,
            context_id: None,
            task_id: None,
        };
        let context = self.build_context();
        let response = self.service.call(A2ARequest::new(operation, context))?;
        match response.into_task() {
            Some(task) => Ok(task),
            None => Err(A2AError::Protocol(String::from_str(
                "Expected task response from send_message",
            ))),
        }
    }

    /// Send a message with streaming requested.
    pub fn send_message_streaming(&mut self, message: Message) -> Result<Task, A2AError> {
        let operation = A2AOperation::SendMessage {
            message,
            stream: true,
            context_id: None,
            task_id: None,
        };
        let context = self.build_context();
        let response = self.service.call(A2ARequest::new(operation, context))?;
        match response.into_task() {
            Some(task) => Ok(task),
            None => Err(A2AError::Protocol(String::from_str(
                "Expected task response from send_message_streaming",
            ))),
        }
    }

    /// Send a message within a conversation context.
    pub fn send_message_in_context(&mut self, message: Message, context_id: String) -> Result<
        Task,
        A2AError,
    > {
        let operation = A2AOperation::SendMessage {
            message,
            stream: false,
            context_id: Some(context_id),
            task_id: None,
        };
        let context = self.build_context();
        let response = self.service.call(A2ARequest::new(operation, context))?;
        match response.into_task() {
            Some(task) => Ok(task),
            None => Err(A2AError::Protocol(String::from_str(
                "Expected task response from send_message_in_context",
            ))),
        }
    }

    /// Fetch a task by identifier.
    pub fn get_task(&mut self, task_id: String) -> Result<Task, A2AError> {
        let operation = A2AOperation::GetTask { task_id };
        let context = self.build_context();
        let response = self.service.call(A2ARequest::new(operation, context))?;
        match response.into_task() {
            Some(task) => Ok(task),
            None => Err(A2AError::Protocol(String::from_str(
                "Expected task response from get_task",
            ))),
        }
    }

    /// List tasks, optionally filtered by status and capped in number.
    pub fn list_tasks(&mut self, status: Option<TaskStatus>, limit: Option<u32>) -> Result<
        Vec<Task>,
        A2AError,
    > {
        let operation = A2AOperation::ListTasks { status, limit, offset: None, next_token: None };
        let context = self.build_context();
        let response = self.service.call(A2ARequest::new(operation, context))?;
        match response.into_task_list() {
            Some(tasks) => Ok(tasks),
            None => Err(A2AError::Protocol(String::from_str(
                "Expected task list response from list_tasks",
            ))),
        }
    }

    /// List every task.
    pub fn list_all_tasks(&mut self) -> Result<Vec<Task>, A2AError> {
        self.list_tasks(None, None)
    }

    /// List the tasks in one status.
    pub fn list_tasks_by_status(&mut self, status: TaskStatus) -> Result<Vec<Task>, A2AError> {
        self.list_tasks(Some(status), None)
    }

    /// Cancel a task; the agent answers with the updated task.
    pub fn cancel_task(&mut self, task_id: String) -> Result<Task, A2AError> {
        let operation = A2AOperation::CancelTask { task_id };
        let context = self.build_context();
        let response = self.service.call(A2ARequest::new(operation, context))?;
        match response.into_task() {
            Some(task) => Ok(task),
            None => Err(A2AError::Protocol(String::from_str(
                "Expected task response from cancel_task",
            ))),
        }
    }

    /// Fetch the agent card.
    pub fn discover(&mut self) -> Result<AgentCard, A2AError> {
        let operation = A2AOperation::DiscoverAgent;
        let context = self.build_context();
        let response = self.service.call(A2ARequest::new(operation, context))?;
        match response.into_agent_card() {
            Some(card) => Ok(card),
            None => Err(A2AError::Protocol(String::from_str(
                "Expected agent card response from discover",
            ))),
        }
    }

    /// Fetch the task again and again until it reaches a terminal state,
    /// pausing between attempts. A task that comes back is terminal; a
    /// fetch error is returned unchanged; exhausting the cap is a
    /// `Timeout` error. A cap of zero stands for no practical cap: the
    /// loop then allows as many attempts as a machine count can hold,
    /// since every loop here carries a termination measure.
    #[verifier::loop_isolation(false)]
    pub fn poll_until_complete(
        &mut self,
        task_id: String,
        poll_interval_ms: u64,
        max_attempts: usize,
    ) -> (r: Result<Task, A2AError>)
        ensures
            (r matches Ok(task) ==> spec_status_terminal(task@.status)),
    {
        let cap: usize = if max_attempts == 0 {
            usize::MAX
        } else {
            max_attempts
        };
        let mut attempts: usize = 0;
        while attempts < cap
            invariant
                attempts <= cap,
            decreases cap - attempts,
        {
            let task = match self.get_task(task_id.clone()) {
                Ok(task) => task,
                Err(e) => {
                    return Err(e);
                },
            };
            if task.is_terminal() {
                return Ok(task);
            }
            attempts += 1;
            if attempts < cap {
                self.service.pause(poll_interval_ms);
            }
        }
        Err(A2AError::Timeout)
    }
}

} // verus!
