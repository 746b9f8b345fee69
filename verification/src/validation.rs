//! The validation layer: request-side pre-conditions and response-side
//! invariants, each failure a `Validation` error.

use vstd::prelude::*;
use crate::error::{A2AError, A2AErrorView};
use crate::message::MessagePartView;
use crate::operation::A2AOperationView;
use crate::request::{A2ARequest, A2ARequestView};
use crate::response::{A2AResponse, A2AResponseView};
use crate::task::TaskStatus;
use crate::message::MessagePart;
use crate::service::A2AService;
use crate::transport::TransportReadiness;

verus! {

broadcast use vstd::std_specs::vec::group_vec_axioms, vstd::seq::group_seq_axioms;

/// The first complaint about a part list, scanning left to right: an empty
/// text, an unnamed file, or a file with neither URI nor bytes.
pub open spec fn spec_parts_complaint(parts: Seq<MessagePartView>) -> Option<Seq<char>>
    decreases parts.len(),
{
    if parts.len() == 0 {
        None
    } else {
        match spec_part_complaint(parts[0]) {
            Some(msg) => Some(msg),
            None => spec_parts_complaint(parts.drop_first()),
        }
    }
}

/// The complaint about one part, if any.
pub open spec fn spec_part_complaint(p: MessagePartView) -> Option<Seq<char>> {
    match p {
        MessagePartView::Text { text } => if text.len() == 0 {
            Some("Text part cannot be empty"@)
        } else {
            None
        },
        MessagePartView::File { file } => if file.name.len() == 0 {
            Some("File name cannot be empty"@)
        } else if file.file_with_uri is None && file.file_with_bytes is None {
            Some("File must have either URI or bytes content"@)
        } else {
            None
        },
        MessagePartView::Data { .. } => None,
    }
}

/// The complaint about a request, if any: the operation's pre-conditions
/// first, then the context's agent URL.
pub open spec fn spec_request_complaint(req: A2ARequestView) -> Option<Seq<char>> {
    match spec_operation_complaint(req.operation) {
        Some(msg) => Some(msg),
        None => if req.context.agent_url.len() == 0 {
            Some("Agent URL cannot be empty"@)
        } else {
            None
        },
    }
}

/// The complaint about an operation, if any.
pub open spec fn spec_operation_complaint(op: A2AOperationView) -> Option<Seq<char>> {
    match op {
        A2AOperationView::SendMessage { message, .. } => if message.parts.len() == 0 {
            Some("Message must have at least one part"@)
        } else {
            spec_parts_complaint(message.parts)
        },
        A2AOperationView::GetTask { task_id } => if task_id.len() == 0 {
            Some("Task ID cannot be empty"@)
        } else {
            None
        },
        A2AOperationView::CancelTask { task_id } => if task_id.len() == 0 {
            Some("Task ID cannot be empty"@)
        } else {
            None
        },
        A2AOperationView::ListTasks { limit, offset, .. } => {
            if limit matches Some(l) && l == 0 {
                Some("Limit must be greater than 0"@)
            } else if limit matches Some(l) && l > 1000 {
                Some("Limit cannot exceed 1000"@)
            } else if offset matches Some(o) && o > 1000000 {
                Some("Offset is too large"@)
            } else {
                None
            }
        },
        A2AOperationView::RegisterWebhook { url, events, .. } => if url.len() == 0 {
            Some("Webhook URL cannot be empty"@)
        } else if events.len() == 0 {
            Some("Webhook must subscribe to at least one event"@)
        } else {
            None
        },
        _ => None,
    }
}

/// The complaint about a response, if any: a task must keep its identity
/// and input; a completed task must show artifacts or an error; a failed
/// task must carry an error; a card must name the agent and an endpoint.
pub open spec fn spec_response_complaint(resp: A2AResponseView) -> Option<Seq<char>> {
    match resp {
        A2AResponseView::Task(t) => if t.id.len() == 0 {
            Some("Task ID cannot be empty"@)
        } else if t.input.parts.len() == 0 {
            Some("Task input must have at least one part"@)
        } else if t.status == TaskStatus::Completed && t.artifacts.len() == 0 && t.error is None {
            Some("Completed task must have artifacts or error"@)
        } else if t.status == TaskStatus::Failed && t.error is None {
            Some("Failed task must have an error"@)
        } else {
            None
        },
        A2AResponseView::AgentCard(c) => if c.name.len() == 0 {
            Some("Agent name cannot be empty"@)
        } else if c.endpoints.len() == 0 {
            Some("Agent card must have at least one endpoint"@)
        } else {
            None
        },
        _ => None,
    }
}

/// Check the parts of a message, left to right.
#[verifier::loop_isolation(false)]
fn validate_parts(parts: &Vec<MessagePart>) -> (r: Result<(), A2AError>)
    ensures
        (match r {
            Ok(_) => spec_parts_complaint(parts.deep_view()) is None,
            Err(e) => e@ matches A2AErrorView::Validation(msg)
                && spec_parts_complaint(parts.deep_view()) == Some(msg),
        }),
{
    let ghost gs = parts.deep_view();
    let mut k: usize = 0;
    while k < parts.len()
        invariant
            k <= parts@.len(),
            gs.len() == parts@.len(),
            forall|j: int| 0 <= j < gs.len() ==> gs[j] == parts@[j]@,
            forall|j: int| 0 <= j < k ==> spec_part_complaint(gs[j]) is None,
        decreases parts@.len() - k,
    {
        let complaint: Option<&'static str> = match &parts[k] {
            MessagePart::Text { text } => if text.as_str().unicode_len() == 0 {
                Some("Text part cannot be empty")
            } else {
                None
            },
            MessagePart::File { file } => if file.name.as_str().unicode_len() == 0 {
                Some("File name cannot be empty")
            } else if file.file_with_uri.is_none() && file.file_with_bytes.is_none() {
                Some("File must have either URI or bytes content")
            } else {
                None
            },
            MessagePart::Data { .. } => None,
        };
        match complaint {
            Some(msg) => {
                proof {
                    lemma_parts_complaint_at(gs, k as int);
                }
                return Err(A2AError::Validation(String::from_str(msg)));
            },
            None => {},
        }
        k += 1;
    }
    proof {
        lemma_parts_complaint_none(gs);
    }
    Ok(())
}

proof fn lemma_parts_complaint_at(s: Seq<MessagePartView>, i: int)
    requires
        0 <= i < s.len(),
        spec_part_complaint(s[i]) is Some,
        forall|j: int| 0 <= j < i ==> spec_part_complaint(s[j]) is None,
    ensures
        spec_parts_complaint(s) == spec_part_complaint(s[i]),
    decreases i,
{
    if i > 0 {
        lemma_parts_complaint_at(s.drop_first(), i - 1);
    }
}

proof fn lemma_parts_complaint_none(s: Seq<MessagePartView>)
    requires
        forall|j: int| 0 <= j < s.len() ==> spec_part_complaint(s[j]) is None,
    ensures
        spec_parts_complaint(s) is None,
    decreases s.len(),
{
    if s.len() > 0 {
        lemma_parts_complaint_none(s.drop_first());
    }
}

/// Check a request against its pre-conditions.
pub fn validate_request(req: &A2ARequest) -> (r: Result<(), A2AError>)
    ensures
        (match r {
            Ok(_) => spec_request_complaint(req@) is None,
            Err(e) => e@ matches A2AErrorView::Validation(msg)
                && spec_request_complaint(req@) == Some(msg),
        }),
{
    match &req.operation {
        crate::operation::A2AOperation::SendMessage { message, .. } => {
            if message.parts.len() == 0 {
                return Err(A2AError::Validation(String::from_str(
                    "Message must have at least one part",
                )));
            }
            match validate_parts(&message.parts) {
                Ok(_) => {},
                Err(e) => {
                    return Err(e);
                },
            }
        },
        crate::operation::A2AOperation::GetTask { task_id } => {
            if task_id.as_str().unicode_len() == 0 {
                return Err(A2AError::Validation(String::from_str("Task ID cannot be empty")));
            }
        },
        crate::operation::A2AOperation::CancelTask { task_id } => {
            if task_id.as_str().unicode_len() == 0 {
                return Err(A2AError::Validation(String::from_str("Task ID cannot be empty")));
            }
        },
        crate::operation::A2AOperation::ListTasks { limit, offset, .. } => {
            match limit {
                Some(l) => {
                    if *l == 0 {
                        return Err(A2AError::Validation(String::from_str(
                            "Limit must be greater than 0",
                        )));
                    }
                    if *l > 1000 {
                        return Err(A2AError::Validation(String::from_str(
                            "Limit cannot exceed 1000",
                        )));
                    }
                },
                None => {},
            }
            match offset {
                Some(o) => {
                    if *o > 1000000 {
                        return Err(A2AError::Validation(String::from_str("Offset is too large")));
                    }
                },
                None => {},
            }
        },
        crate::operation::A2AOperation::RegisterWebhook { url, events, .. } => {
            if url.as_str().unicode_len() == 0 {
                return Err(A2AError::Validation(String::from_str(
                    "Webhook URL cannot be empty",
                )));
            }
            if events.len() == 0 {
                return Err(A2AError::Validation(String::from_str(
                    "Webhook must subscribe to at least one event",
                )));
            }
        },
        _ => {},
    }
    if req.context.agent_url.as_str().unicode_len() == 0 {
        return Err(A2AError::Validation(String::from_str("Agent URL cannot be empty")));
    }
    Ok(())
}

/// Check a response against its invariants.
pub fn validate_response(resp: &A2AResponse) -> (r: Result<(), A2AError>)
    ensures
        (match r {
            Ok(_) => spec_response_complaint(resp@) is None,
            Err(e) => e@ matches A2AErrorView::Validation(msg)
                && spec_response_complaint(resp@) == Some(msg),
        }),
{
    match resp {
        A2AResponse::Task(t) => {
            if t.id.as_str().unicode_len() == 0 {
                return Err(A2AError::Validation(String::from_str("Task ID cannot be empty")));
            }
            if t.input.parts.len() == 0 {
                return Err(A2AError::Validation(String::from_str(
                    "Task input must have at least one part",
                )));
            }
            let completed = match t.status {
                TaskStatus::Completed => true,
                _ => false,
            };
            if completed && t.artifacts.len() == 0 && t.error.is_none() {
                return Err(A2AError::Validation(String::from_str(
                    "Completed task must have artifacts or error",
                )));
            }
            let failed = match t.status {
                TaskStatus::Failed => true,
                _ => false,
            };
            if failed && t.error.is_none() {
                return Err(A2AError::Validation(String::from_str(
                    "Failed task must have an error",
                )));
            }
            Ok(())
        },
        A2AResponse::AgentCard(c) => {
            if c.name.as_str().unicode_len() == 0 {
                return Err(A2AError::Validation(String::from_str("Agent name cannot be empty")));
            }
            if c.endpoints.len() == 0 {
                return Err(A2AError::Validation(String::from_str(
                    "Agent card must have at least one endpoint",
                )));
            }
            Ok(())
        },
        _ => Ok(()),
    }
}

/// The validation layer: wraps a service in request and response checks.
#[derive(Debug, Clone)]
pub struct A2AValidationLayer;

impl A2AValidationLayer {
    /// A validation layer.
    pub fn new() -> (r: Self)
        ensures
            r == (A2AValidationLayer {}),
    {
        A2AValidationLayer {}
    }

    /// Wrap an inner service in validation.
    pub fn layer<S: A2AService>(&self, inner: S) -> (r: A2AValidationService<S>)
        ensures
            r.inner == inner,
            r.enabled,
    {
        A2AValidationService { inner, enabled: true }
    }
}

/// A service that checks requests before its inner service runs, and
/// responses after.
#[derive(Debug, Clone)]
pub struct A2AValidationService<S> {
    /// The wrapped service.
    pub inner: S,
    /// Whether response validation is on.
    pub enabled: bool,
}

impl<S: A2AService> A2AService for A2AValidationService<S> {
    fn poll_ready(&mut self) -> TransportReadiness {
        self.inner.poll_ready()
    }

    /// Execute one request. A request that fails its pre-conditions is
    /// rejected without reaching the inner service; a response that breaks
    /// its invariants is rejected after.
    fn call(&mut self, request: A2ARequest) -> (r: Result<A2AResponse, A2AError>)
        ensures
            spec_request_complaint(request@) matches Some(msg) ==> (r matches Err(e)
                && e@ == A2AErrorView::Validation(msg)),
            old(self).enabled ==> (r matches Ok(resp) ==> spec_response_complaint(resp@) is None),
    {
        match validate_request(&request) {
            Ok(_) => {},
            Err(e) => {
                return Err(e);
            },
        }
        let response = match self.inner.call(request) {
            Ok(resp) => resp,
            Err(e) => {
                return Err(e);
            },
        };
        if self.enabled {
            match validate_response(&response) {
                Ok(_) => {},
                Err(e) => {
                    return Err(e);
                },
            }
        }
        Ok(response)
    }

    fn pause(&mut self, duration_ms: u64) {
        self.inner.pause(duration_ms);
    }
}

} // verus!
