//! The codec interface and the plain HTTP+JSON binding.

use vstd::prelude::*;
use crate::agentcodec::{spec_json_to_card, value_to_card};
use crate::codec::{spec_message_to_json, spec_json_to_task, spec_opt_str_member,
    spec_opt_str_field, spec_strs_to_json, message_to_value, value_to_task,
    strs_to_values, get_opt_str_field};
use crate::error::{A2AError, A2AErrorView};
use crate::json::{JsonValue, JsonView, spec_obj_get, spec_obj_has_key, json_views,
    lemma_json_views_index, json_member_views, lemma_json_member_views_index};
use crate::jsontext::{parse_json, print_json, spec_print};
use crate::operation::{A2AOperation, A2AOperationView};
use crate::response::{A2AResponse, A2AResponseView};
use crate::task::{Task, TaskView};

verus! {

broadcast use vstd::std_specs::vec::group_vec_axioms, vstd::seq::group_seq_axioms;

/// A codec binds abstract operations to wire text and back.
///
/// Implementations decide the concrete binding; the exact text each one
/// produces is stated on its own functions.
pub trait Codec: Sized {
    /// What decoding a body yields under this binding, exactly.
    spec fn spec_decode(&self, body: Seq<char>, op: A2AOperationView) -> Result<
        A2AResponseView,
        A2AErrorView,
    >;

    /// Serialize an operation to its request body text.
    fn encode_request(&self, operation: &A2AOperation) -> Result<String, A2AError>;

    /// Deserialize response body text, dispatching on the originating
    /// operation. The result is exactly what `spec_decode` says of the
    /// text.
    fn decode_response(&self, body: &str, operation: &A2AOperation) -> (r: Result<
        A2AResponse,
        A2AError,
    >)
        ensures
            decode_matches(r, self.spec_decode(body@, operation@)),
    ;

    /// The MIME content type of this binding.
    fn content_type(&self) -> &'static str;
}

/// How an executable decode result corresponds to its mathematical one.
pub open spec fn decode_matches(
    r: Result<A2AResponse, A2AError>,
    m: Result<A2AResponseView, A2AErrorView>,
) -> bool {
    match (r, m) {
        (Ok(resp), Ok(mv)) => resp@ == mv,
        (Err(e), Err(me)) => e@ == me,
        _ => false,
    }
}

/// The request body of an operation, as a JSON document. Operations carried
/// entirely by their route encode as the empty object.
pub open spec fn spec_operation_body(op: A2AOperationView) -> JsonView {
    match op {
        A2AOperationView::SendMessage { message, stream, context_id, task_id } => JsonView::Obj(
            seq![("message"@, spec_message_to_json(message))]
                + seq![("stream"@, JsonView::Bool(stream))]
                + spec_opt_str_member("contextId"@, context_id)
                + spec_opt_str_member("taskId"@, task_id),
        ),
        A2AOperationView::CancelTask { task_id } => JsonView::Obj(
            seq![("taskId"@, JsonView::Str(task_id))],
        ),
        A2AOperationView::RegisterWebhook { url, events, auth } => JsonView::Obj(
            seq![("url"@, JsonView::Str(url))]
                + seq![("events"@, JsonView::Arr(spec_strs_to_json(events)))]
                + spec_opt_str_member("auth"@, auth),
        ),
        _ => JsonView::Obj(Seq::empty()),
    }
}

/// Encode an operation's request body.
#[verifier::rlimit(30)]
pub fn operation_to_body_value(op: &A2AOperation) -> (r: JsonValue)
    ensures
        r@ == spec_operation_body(op@),
{
    let r = match op {
        A2AOperation::SendMessage { message, stream, context_id, task_id } => {
            let mut ms: Vec<(String, JsonValue)> = Vec::new();
            ms.push((String::from_str("message"), message_to_value(message)));
            ms.push((String::from_str("stream"), JsonValue::Bool(*stream)));
            match context_id {
                Some(s) => {
                    ms.push((String::from_str("contextId"), JsonValue::Str(s.clone())));
                },
                None => {},
            }
            match task_id {
                Some(s) => {
                    ms.push((String::from_str("taskId"), JsonValue::Str(s.clone())));
                },
                None => {},
            }
            JsonValue::Obj(ms)
        },
        A2AOperation::CancelTask { task_id } => {
            let mut ms: Vec<(String, JsonValue)> = Vec::new();
            ms.push((String::from_str("taskId"), JsonValue::Str(task_id.clone())));
            JsonValue::Obj(ms)
        },
        A2AOperation::RegisterWebhook { url, events, auth } => {
            let mut ms: Vec<(String, JsonValue)> = Vec::new();
            ms.push((String::from_str("url"), JsonValue::Str(url.clone())));
            ms.push((String::from_str("events"), JsonValue::Arr(strs_to_values(events))));
            match auth {
                Some(s) => {
                    ms.push((String::from_str("auth"), JsonValue::Str(s.clone())));
                },
                None => {},
            }
            JsonValue::Obj(ms)
        },
        _ => {
            let ms: Vec<(String, JsonValue)> = Vec::new();
            JsonValue::Obj(ms)
        },
    };
    proof {
        lemma_json_member_views_index(r->Obj_0@);
        assert(r@->Obj_0 =~= spec_operation_body(op@)->Obj_0);
    }
    r
}

// --- task lists -------------------------------------------------------------

/// The task list a list of JSON documents denotes.
pub open spec fn spec_json_to_tasks(s: Seq<JsonView>) -> Option<Seq<TaskView>>
    decreases s.len(),
{
    if s.len() == 0 {
        Some(Seq::empty())
    } else {
        match (spec_json_to_task(s[0]), spec_json_to_tasks(s.drop_first())) {
            (Some(t), Some(rest)) => Some(seq![t] + rest),
            _ => None,
        }
    }
}

proof fn lemma_json_to_tasks_fail(s: Seq<JsonView>, i: int)
    requires
        0 <= i < s.len(),
        spec_json_to_task(s[i]) is None,
    ensures
        spec_json_to_tasks(s) is None,
    decreases i,
{
    if i > 0 {
        lemma_json_to_tasks_fail(s.drop_first(), i - 1);
    }
}

proof fn lemma_json_to_tasks_ok(s: Seq<JsonView>, out: Seq<TaskView>)
    requires
        s.len() == out.len(),
        forall|i: int| 0 <= i < s.len() ==> spec_json_to_task(s[i]) == Some(out[i]),
    ensures
        spec_json_to_tasks(s) == Some(out),
    decreases s.len(),
{
    if s.len() == 0 {
        assert(out =~= Seq::<TaskView>::empty());
    } else {
        lemma_json_to_tasks_ok(s.drop_first(), out.drop_first());
        assert(seq![out[0]] + out.drop_first() =~= out);
    }
}

/// A decoded list of tasks.
pub type TaskVec = Vec<Task>;

/// Decode a list of tasks.
#[verifier::loop_isolation(false)]
pub fn values_to_tasks(vals: &Vec<JsonValue>) -> (r: Option<TaskVec>)
    ensures
        (match r {
            Some(ts) => spec_json_to_tasks(json_views(vals@)) == Some(ts.deep_view()),
            None => spec_json_to_tasks(json_views(vals@)) is None,
        }),
{
    proof {
        lemma_json_views_index(vals@);
    }
    let ghost gs = json_views(vals@);
    let mut out: Vec<Task> = Vec::new();
    let mut k: usize = 0;
    while k < vals.len()
        invariant
            k <= vals@.len(),
            out@.len() == k,
            forall|j: int| 0 <= j < k ==> spec_json_to_task(gs[j]) == Some(out@[j]@),
        decreases vals@.len() - k,
    {
        match value_to_task(&vals[k]) {
            Some(t) => {
                out.push(t);
            },
            None => {
                proof {
                    lemma_json_to_tasks_fail(gs, k as int);
                }
                return None;
            },
        }
        k += 1;
    }
    proof {
        lemma_json_to_tasks_ok(gs, out.deep_view());
    }
    Some(out)
}

/// The response a JSON document denotes for a task-list query: tasks, a
/// total that fits the count types, and an optional continuation token.
pub open spec fn spec_json_to_task_list(v: JsonView) -> Option<A2AResponseView> {
    match v {
        JsonView::Obj(ms) => {
            if spec_obj_has_key(ms, "tasks"@) && spec_obj_has_key(ms, "total"@) {
                match (spec_obj_get(ms, "tasks"@), spec_obj_get(ms, "total"@),
                    spec_opt_str_field(ms, "nextToken"@)) {
                    (JsonView::Arr(items), JsonView::Int(total), Some(next_token)) => {
                        if 0 <= total <= 0x7FFF_FFFF {
                            match spec_json_to_tasks(items) {
                                Some(tasks) => Some(A2AResponseView::TaskList {
                                    tasks,
                                    total,
                                    next_token,
                                }),
                                None => None,
                            }
                        } else {
                            None
                        }
                    },
                    _ => None,
                }
            } else {
                None
            }
        },
        _ => None,
    }
}

/// Decode a task-list response body.
pub fn value_to_task_list(v: &JsonValue) -> (r: Option<A2AResponse>)
    ensures
        (match r {
            Some(resp) => spec_json_to_task_list(v@) == Some(resp@),
            None => spec_json_to_task_list(v@) is None,
        }),
{
    let is_obj = match v {
        JsonValue::Obj(_) => true,
        _ => false,
    };
    if !is_obj {
        return None;
    }
    let tasks = match v.get("tasks") {
        Some(field) => match field {
            JsonValue::Arr(items) => match values_to_tasks(items) {
                Some(ts) => ts,
                None => {
                    return None;
                },
            },
            _ => {
                return None;
            },
        },
        None => {
            return None;
        },
    };
    let total_i = match v.get("total") {
        Some(field) => match field.as_int() {
            Some(i) => i,
            None => {
                return None;
            },
        },
        None => {
            return None;
        },
    };
    if total_i < 0 || total_i > 0x7FFF_FFFF {
        return None;
    }
    let total: usize = total_i as usize;
    let next_token = match get_opt_str_field(v, "nextToken") {
        Some(opt) => opt,
        None => {
            return None;
        },
    };
    Some(A2AResponse::TaskList { tasks, total, next_token })
}

/// What a response document denotes for an operation: a task for task
/// operations, a list for the list query, a card for discovery, nothing for
/// streaming subscriptions and webhook registration. `None` is malformed.
pub open spec fn spec_decode_response_value(
    v: JsonView,
    op: A2AOperationView,
) -> Option<A2AResponseView> {
    match op {
        A2AOperationView::SendMessage { .. } | A2AOperationView::GetTask { .. }
            | A2AOperationView::CancelTask { .. } => match spec_json_to_task(v) {
            Some(t) => Some(A2AResponseView::Task(t)),
            None => None,
        },
        A2AOperationView::ListTasks { .. } => spec_json_to_task_list(v),
        A2AOperationView::DiscoverAgent => match spec_json_to_card(v) {
            Some(c) => Some(A2AResponseView::AgentCard(c)),
            None => None,
        },
        A2AOperationView::SubscribeTask { .. } | A2AOperationView::RegisterWebhook { .. } => Some(
            A2AResponseView::Empty,
        ),
    }
}

/// The message of the serialization error for a document that does not
/// denote the operation's response shape.
pub open spec fn spec_decode_failure_msg(op: A2AOperationView) -> Seq<char> {
    match op {
        A2AOperationView::SendMessage { .. } | A2AOperationView::GetTask { .. }
            | A2AOperationView::CancelTask { .. } => "malformed task document"@,
        A2AOperationView::ListTasks { .. } => "malformed task list document"@,
        A2AOperationView::DiscoverAgent => "malformed agent card document"@,
        _ => ""@,
    }
}

/// Decode a parsed response document, dispatching on the operation.
///
/// A malformed document yields a `Serialization` error, exactly when the
/// document does not denote the operation's response shape.
pub fn decode_response_value(v: &JsonValue, op: &A2AOperation) -> (r: Result<
    A2AResponse,
    A2AError,
>)
    ensures
        (match r {
            Ok(resp) => spec_decode_response_value(v@, op@) == Some(resp@),
            Err(e) => spec_decode_response_value(v@, op@) is None && e@
                == A2AErrorView::Serialization(spec_decode_failure_msg(op@)),
        }),
{
    match op {
        A2AOperation::SendMessage { .. } | A2AOperation::GetTask { .. }
            | A2AOperation::CancelTask { .. } => match value_to_task(v) {
            Some(t) => Ok(A2AResponse::Task(Box::new(t))),
            None => Err(A2AError::Serialization(String::from_str("malformed task document"))),
        },
        A2AOperation::ListTasks { .. } => match value_to_task_list(v) {
            Some(resp) => Ok(resp),
            None => Err(A2AError::Serialization(String::from_str("malformed task list document"))),
        },
        A2AOperation::DiscoverAgent => match value_to_card(v) {
            Some(c) => Ok(A2AResponse::AgentCard(Box::new(c))),
            None => Err(A2AError::Serialization(String::from_str("malformed agent card document"))),
        },
        A2AOperation::SubscribeTask { .. } | A2AOperation::RegisterWebhook { .. } => Ok(
            A2AResponse::Empty,
        ),
    }
}

/// The plain HTTP+JSON binding.
#[derive(Debug, Clone)]
pub struct JsonCodec;

impl JsonCodec {
    /// A plain-JSON codec.
    pub fn new() -> (r: Self)
        ensures
            r == (JsonCodec {}),
    {
        JsonCodec {}
    }

    /// Encode an operation's request body to its canonical text.
    pub fn encode_body(&self, operation: &A2AOperation) -> (r: String)
        ensures
            r@ == spec_print(spec_operation_body(operation@)),
    {
        let body = operation_to_body_value(operation);
        print_json(&body)
    }

    /// Decode a response body: exactly `spec_json_decode` of the text.
    /// The empty body decodes to the empty response; text that is not one
    /// JSON document is a `Serialization` error; a document that does not
    /// denote the operation's response shape is one too.
    pub fn decode_body(&self, body: &str, operation: &A2AOperation) -> (r: Result<
        A2AResponse,
        A2AError,
    >)
        ensures
            decode_matches(r, spec_json_decode(body@, operation@)),
    {
        if body.unicode_len() == 0 {
            return Ok(A2AResponse::Empty);
        }
        match parse_json(body) {
            Some(v) => decode_response_value(&v, operation),
            None => Err(A2AError::Serialization(String::from_str("response body is not JSON"))),
        }
    }
}

/// What the plain-JSON binding decodes a body to: the empty response for
/// the empty body; else the parsed document's decoding under the
/// operation; a parse failure or a malformed document is a
/// `Serialization` error.
pub open spec fn spec_json_decode(body: Seq<char>, op: A2AOperationView) -> Result<
    A2AResponseView,
    A2AErrorView,
> {
    if body.len() == 0 {
        Ok(A2AResponseView::Empty)
    } else {
        match crate::jsontext::spec_parse_json(body) {
            Some(jv) => match spec_decode_response_value(jv, op) {
                Some(resp) => Ok(resp),
                None => Err(A2AErrorView::Serialization(spec_decode_failure_msg(op))),
            },
            None => Err(A2AErrorView::Serialization("response body is not JSON"@)),
        }
    }
}

impl Codec for JsonCodec {
    open spec fn spec_decode(&self, body: Seq<char>, op: A2AOperationView) -> Result<
        A2AResponseView,
        A2AErrorView,
    > {
        spec_json_decode(body, op)
    }

    fn encode_request(&self, operation: &A2AOperation) -> Result<String, A2AError> {
        Ok(self.encode_body(operation))
    }

    fn decode_response(&self, body: &str, operation: &A2AOperation) -> (r: Result<
        A2AResponse,
        A2AError,
    >) {
        self.decode_body(body, operation)
    }

    fn content_type(&self) -> &'static str {
        "application/a2a+json"
    }
}

} // verus!
