//! The JSON-RPC 2.0 binding: plain-JSON bodies wrapped in request envelopes.

use vstd::prelude::*;
use crate::error::{A2AError, A2AErrorView};
use crate::json::{JsonValue, JsonView, spec_obj_get, spec_obj_has_key,
    lemma_json_member_views_index};
use crate::jsoncodec::{Codec, decode_matches, spec_operation_body, operation_to_body_value,
    spec_decode_failure_msg, spec_decode_response_value, decode_response_value};
use crate::jsontext::{parse_json, print_json, spec_print, spec_int_chars, int_to_string};
use crate::operation::{A2AOperation, A2AOperationView};
use crate::response::{A2AResponse, A2AResponseView};

verus! {

broadcast use vstd::std_specs::vec::group_vec_axioms, vstd::seq::group_seq_axioms;

/// The JSON-RPC method name of an operation.
pub open spec fn spec_rpc_method(op: A2AOperationView) -> Seq<char> {
    match op {
        A2AOperationView::SendMessage { stream, .. } => if stream {
            "message/stream"@
        } else {
            "message/send"@
        },
        A2AOperationView::GetTask { .. } => "task/get"@,
        A2AOperationView::ListTasks { .. } => "task/list"@,
        A2AOperationView::CancelTask { .. } => "task/cancel"@,
        A2AOperationView::DiscoverAgent => "agent/discover"@,
        A2AOperationView::SubscribeTask { .. } => "task/subscribe"@,
        A2AOperationView::RegisterWebhook { .. } => "webhook/register"@,
    }
}

/// The JSON-RPC request envelope of an operation under a request id.
pub open spec fn spec_rpc_envelope(op: A2AOperationView, id: Seq<char>) -> JsonView {
    JsonView::Obj(
        seq![("jsonrpc"@, JsonView::Str("2.0"@))]
            + seq![("method"@, JsonView::Str(spec_rpc_method(op)))]
            + seq![("params"@, spec_operation_body(op))]
            + seq![("id"@, JsonView::Str(id))],
    )
}

/// Relies on uuid's `Uuid::now_v7` and its hyphenated text form: a fresh
/// time-ordered identifier of 36 characters. The value depends on the clock
/// and on chance.
#[verifier::external_body]
pub fn fresh_request_id() -> (r: String)
    ensures
        r@.len() == 36,
{
    uuid::Uuid::now_v7().to_string()
}

/// The JSON-RPC method name of an operation.
pub fn operation_to_method(operation: &A2AOperation) -> (r: &'static str)
    ensures
        r@ == spec_rpc_method(operation@),
{
    match operation {
        A2AOperation::SendMessage { stream, .. } => if *stream {
            "message/stream"
        } else {
            "message/send"
        },
        A2AOperation::GetTask { .. } => "task/get",
        A2AOperation::ListTasks { .. } => "task/list",
        A2AOperation::CancelTask { .. } => "task/cancel",
        A2AOperation::DiscoverAgent => "agent/discover",
        A2AOperation::SubscribeTask { .. } => "task/subscribe",
        A2AOperation::RegisterWebhook { .. } => "webhook/register",
    }
}

/// The JSON-RPC 2.0 binding: plain-JSON bodies in `{jsonrpc, method,
/// params, id}` envelopes.
#[derive(Debug, Clone)]
pub struct JsonRpcCodec;

impl JsonRpcCodec {
    /// A JSON-RPC codec.
    pub fn new() -> (r: Self)
        ensures
            r == (JsonRpcCodec {}),
    {
        JsonRpcCodec {}
    }

    /// Encode an operation under the given request id.
    pub fn encode_body_with_id(&self, operation: &A2AOperation, id: &str) -> (r: String)
        ensures
            r@ == spec_print(spec_rpc_envelope(operation@, id@)),
    {
        let mut ms: Vec<(String, JsonValue)> = Vec::new();
        ms.push((String::from_str("jsonrpc"), JsonValue::Str(String::from_str("2.0"))));
        ms.push((String::from_str("method"),
            JsonValue::Str(String::from_str(operation_to_method(operation)))));
        ms.push((String::from_str("params"), operation_to_body_value(operation)));
        ms.push((String::from_str("id"), JsonValue::Str(id.to_owned())));
        let v = JsonValue::Obj(ms);
        proof {
            lemma_json_member_views_index(v->Obj_0@);
            assert(v@->Obj_0 =~= spec_rpc_envelope(operation@, id@)->Obj_0);
        }
        print_json(&v)
    }

    /// Encode an operation under a fresh time-ordered request id.
    pub fn encode_body(&self, operation: &A2AOperation) -> (r: String)
        ensures
            exists|id: Seq<char>|
                id.len() == 36 && r@ == spec_print(spec_rpc_envelope(operation@, id)),
    {
        let id = fresh_request_id();
        let r = self.encode_body_with_id(operation, id.as_str());
        proof {
            assert(id@.len() == 36 && r@ == spec_print(spec_rpc_envelope(operation@, id@)));
        }
        r
    }

    /// Decode a response envelope. An `error` member surfaces as a
    /// `Protocol` error whose message carries the code and message; a
    /// `result` member is decoded by the plain-JSON binding; an envelope
    /// with neither is a `Protocol` error.
    pub fn decode_envelope(&self, v: &JsonValue, operation: &A2AOperation) -> (r: Result<
        A2AResponse,
        A2AError,
    >)
        ensures
            (match r {
                Ok(resp) => spec_rpc_decode(v@, operation@) == RpcDecodeView::Decoded(resp@),
                Err(e) => spec_rpc_decode(v@, operation@) == RpcDecodeView::Failed(e@),
            }),
    {
        let is_obj = match v {
            JsonValue::Obj(_) => true,
            _ => false,
        };
        if !is_obj {
            return Err(A2AError::Protocol(String::from_str(
                "JSON-RPC response is not an object",
            )));
        }
        match v.get("error") {
            Some(err_val) => {
                let code = match err_val.get("code") {
                    Some(c) => match c.as_int() {
                        Some(i) => i,
                        None => {
                            return Err(A2AError::Protocol(String::from_str(
                                "JSON-RPC error object is malformed",
                            )));
                        },
                    },
                    None => {
                        return Err(A2AError::Protocol(String::from_str(
                            "JSON-RPC error object is malformed",
                        )));
                    },
                };
                let message = match err_val.get("message") {
                    Some(m) => match m.as_str() {
                        Some(s) => s.clone(),
                        None => {
                            return Err(A2AError::Protocol(String::from_str(
                                "JSON-RPC error object is malformed",
                            )));
                        },
                    },
                    None => {
                        return Err(A2AError::Protocol(String::from_str(
                            "JSON-RPC error object is malformed",
                        )));
                    },
                };
                let mut text = String::from_str("JSON-RPC error ");
                text.append(int_to_string(code).as_str());
                text.append(": ");
                text.append(message.as_str());
                Err(A2AError::Protocol(text))
            },
            None => match v.get("result") {
                Some(result) => decode_response_value(result, operation),
                None => Err(A2AError::Protocol(String::from_str(
                    "JSON-RPC response missing 'result' field",
                ))),
            },
        }
    }

    /// Decode a response body: exactly `spec_jsonrpc_decode` of the text.
    /// The empty body decodes to the empty response; text that is not one
    /// JSON document is a `Protocol` error; otherwise the envelope
    /// decides.
    pub fn decode_body(&self, body: &str, operation: &A2AOperation) -> (r: Result<
        A2AResponse,
        A2AError,
    >)
        ensures
            decode_matches(r, spec_jsonrpc_decode(body@, operation@)),
    {
        if body.unicode_len() == 0 {
            return Ok(A2AResponse::Empty);
        }
        match parse_json(body) {
            Some(v) => self.decode_envelope(&v, operation),
            None => Err(A2AError::Protocol(String::from_str(
                "failed to parse JSON-RPC response",
            ))),
        }
    }
}

/// What decoding a JSON-RPC envelope yields.
pub enum RpcDecodeView {
    Decoded(crate::response::A2AResponseView),
    Failed(crate::error::A2AErrorView),
}

/// The decoding of a JSON-RPC response envelope: its error member wins,
/// else its result member is decoded, else the envelope is malformed.
pub open spec fn spec_rpc_decode(v: JsonView, op: A2AOperationView) -> RpcDecodeView {
    match v {
        JsonView::Obj(ms) => {
            if spec_obj_has_key(ms, "error"@) {
                spec_rpc_decode_error(spec_obj_get(ms, "error"@))
            } else if spec_obj_has_key(ms, "result"@) {
                match spec_decode_response_value(spec_obj_get(ms, "result"@), op) {
                    Some(resp) => RpcDecodeView::Decoded(resp),
                    None => RpcDecodeView::Failed(crate::error::A2AErrorView::Serialization(
                        spec_decode_failure_msg(op),
                    )),
                }
            } else {
                RpcDecodeView::Failed(crate::error::A2AErrorView::Protocol(
                    "JSON-RPC response missing 'result' field"@,
                ))
            }
        },
        _ => RpcDecodeView::Failed(crate::error::A2AErrorView::Protocol(
            "JSON-RPC response is not an object"@,
        )),
    }
}

/// The error that a JSON-RPC error member denotes: a protocol error naming
/// the code and message, or a malformed-envelope error.
pub open spec fn spec_rpc_decode_error(e: JsonView) -> RpcDecodeView {
    match e {
        JsonView::Obj(ems) => {
            if spec_obj_has_key(ems, "code"@) && spec_obj_has_key(ems, "message"@) {
                match (spec_obj_get(ems, "code"@), spec_obj_get(ems, "message"@)) {
                    (JsonView::Int(code), JsonView::Str(message)) => RpcDecodeView::Failed(
                        crate::error::A2AErrorView::Protocol(
                            "JSON-RPC error "@ + spec_int_chars(code) + ": "@ + message,
                        ),
                    ),
                    _ => RpcDecodeView::Failed(crate::error::A2AErrorView::Protocol(
                        "JSON-RPC error object is malformed"@,
                    )),
                }
            } else {
                RpcDecodeView::Failed(crate::error::A2AErrorView::Protocol(
                    "JSON-RPC error object is malformed"@,
                ))
            }
        },
        _ => RpcDecodeView::Failed(crate::error::A2AErrorView::Protocol(
            "JSON-RPC error object is malformed"@,
        )),
    }
}

/// The string id an envelope carries, when it carries one.
pub open spec fn spec_envelope_id(v: JsonView) -> Option<Seq<char>> {
    match v {
        JsonView::Obj(ms) => if spec_obj_has_key(ms, "id"@) {
            match spec_obj_get(ms, "id"@) {
                JsonView::Str(s) => Some(s),
                _ => None,
            }
        } else {
            None
        },
        _ => None,
    }
}

/// The frame text and request id for an outbound envelope: its own string
/// id when it has one; otherwise the given fresh id, appended to the
/// envelope as its `id` member. A value that is no object is framed
/// unchanged under the fresh id.
pub fn envelope_with_id(envelope: JsonValue, fresh_id: &str) -> (r: (String, String))
    ensures
        (match spec_envelope_id(envelope@) {
            Some(id) => r.0@ == spec_print(envelope@) && r.1@ == id,
            None => r.1@ == fresh_id@ && (match envelope@ {
                JsonView::Obj(ms) => r.0@ == spec_print(
                    JsonView::Obj(ms.push(("id"@, JsonView::Str(fresh_id@)))),
                ),
                _ => r.0@ == spec_print(envelope@),
            }),
        }),
{
    let own_id: Option<String> = match envelope.get("id") {
        Some(field) => match field.as_str() {
            Some(s) => Some(s.clone()),
            None => None,
        },
        None => None,
    };
    match own_id {
        Some(id) => {
            let text = print_json(&envelope);
            (text, id)
        },
        None => {
            match envelope {
                JsonValue::Obj(mut members) => {
                    let ghost pre = crate::json::json_member_views(members@);
                    proof {
                        lemma_json_member_views_index(members@);
                    }
                    members.push((String::from_str("id"), JsonValue::Str(fresh_id.to_owned())));
                    proof {
                        lemma_json_member_views_index(members@);
                        assert(crate::json::json_member_views(members@) =~= pre.push(
                            ("id"@, JsonView::Str(fresh_id@)),
                        ));
                    }
                    let framed = JsonValue::Obj(members);
                    let text = print_json(&framed);
                    (text, fresh_id.to_owned())
                },
                other => {
                    let text = print_json(&other);
                    (text, fresh_id.to_owned())
                },
            }
        },
    }
}

/// What the JSON-RPC binding decodes a body to: the empty response for
/// the empty body; a parse failure is a `Protocol` error; otherwise the
/// envelope decides, its error member first.
pub open spec fn spec_jsonrpc_decode(body: Seq<char>, op: A2AOperationView) -> Result<
    A2AResponseView,
    A2AErrorView,
> {
    if body.len() == 0 {
        Ok(A2AResponseView::Empty)
    } else {
        match crate::jsontext::spec_parse_json(body) {
            Some(jv) => match spec_rpc_decode(jv, op) {
                RpcDecodeView::Decoded(resp) => Ok(resp),
                RpcDecodeView::Failed(e) => Err(e),
            },
            None => Err(A2AErrorView::Protocol("failed to parse JSON-RPC response"@)),
        }
    }
}

impl Codec for JsonRpcCodec {
    open spec fn spec_decode(&self, body: Seq<char>, op: A2AOperationView) -> Result<
        A2AResponseView,
        A2AErrorView,
    > {
        spec_jsonrpc_decode(body, op)
    }

    fn encode_request(&self, operation: &A2AOperation) -> Result<String, A2AError> {
        Ok(self.encode_body(operation))
    }

    fn decode_response(&self, body: &str, operation: &A2AOperation) -> (r: Result<
        A2AResponse,
        A2AError,
    >) {
        self.decode_body(body, operation)
    }

    fn content_type(&self) -> &'static str {
        "application/a2a+json"
    }
}

} // verus!
