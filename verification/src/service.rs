//! The protocol service: build the transport request, execute it, map the
//! result.

use vstd::prelude::*;
use crate::auth::{spec_auth_header_name, spec_auth_header_value};
use crate::error::{A2AError, A2AErrorView};
use crate::json::{JsonValue, JsonView, spec_obj_get, spec_obj_has_key};
use crate::jsoncodec::{Codec, decode_matches};
use crate::jsontext::{parse_json, spec_parse_json, spec_int_chars, int_to_string};
use crate::operation::{spec_endpoint, spec_method};
use crate::request::{A2ARequest, A2ARequestView};
use crate::response::A2AResponse;
use crate::transport::{Transport, TransportReadiness, TransportRequest, TransportRequestView,
    TransportResponse};

verus! {

broadcast use vstd::std_specs::vec::group_vec_axioms, vstd::seq::group_seq_axioms;

/// A service turns requests into responses. Layers wrap an inner service
/// and expose this same interface.
pub trait A2AService: Sized {
    /// Whether the service accepts a request now.
    fn poll_ready(&mut self) -> TransportReadiness;

    /// Execute one request.
    fn call(&mut self, request: A2ARequest) -> Result<A2AResponse, A2AError>;

    /// Wait for about the given number of milliseconds.
    fn pause(&mut self, duration_ms: u64);
}

/// The transport request a service request builds: the operation's route
/// and method; content, accept and version headers; the auth header when
/// credentials are present; the context's metadata headers; and the body,
/// kept only when non-empty and the method has one.
pub open spec fn spec_build_transport_request(
    req: A2ARequestView,
    content_type: Seq<char>,
    body: Seq<char>,
) -> TransportRequestView {
    TransportRequestView {
        endpoint: spec_endpoint(req.operation),
        method: spec_method(req.operation),
        headers: seq![("Content-Type"@, content_type)] + seq![("Accept"@, content_type)]
            + seq![("A2A-Version"@, "1.0"@)] + (match req.context.auth {
            Some(c) => seq![(spec_auth_header_name(c), spec_auth_header_value(c))],
            None => Seq::empty(),
        }) + req.context.metadata,
        body: if body.len() > 0 && spec_method(req.operation) != "GET"@ {
            body
        } else {
            Seq::empty()
        },
    }
}

/// Build the transport request for a service request, given the codec's
/// content type and encoded body.
#[verifier::loop_isolation(false)]
pub fn build_transport_request(req: &A2ARequest, content_type: &str, body: String) -> (r:
    TransportRequest)
    ensures
        r@ == spec_build_transport_request(req@, content_type@, body@),
{
    let mut r = TransportRequest::new(req.operation.endpoint().as_str(), req.operation.method());
    r = r.header("Content-Type", content_type);
    r = r.header("Accept", content_type);
    r = r.header("A2A-Version", "1.0");
    match &req.context.auth {
        Some(creds) => {
            let (name, value) = creds.to_header();
            r = r.header(name.as_str(), value.as_str());
        },
        None => {},
    }
    let mut k: usize = 0;
    let ghost gmeta = req.context.metadata.deep_view();
    let ghost pre = r@.headers;
    while k < req.context.metadata.len()
        invariant
            k <= req.context.metadata@.len(),
            gmeta.len() == req.context.metadata@.len(),
            forall|j: int| 0 <= j < gmeta.len()
                ==> gmeta[j] == (req.context.metadata@[j].0@, req.context.metadata@[j].1@),
            r@.endpoint == spec_endpoint(req@.operation),
            r@.method == spec_method(req@.operation),
            r@.body == Seq::<char>::empty(),
            r@.headers == pre + gmeta.take(k as int),
        decreases req.context.metadata@.len() - k,
    {
        r = r.header(req.context.metadata[k].0.as_str(), req.context.metadata[k].1.as_str());
        proof {
            assert(r@.headers =~= pre + gmeta.take(k + 1));
        }
        k += 1;
    }
    proof {
        assert(gmeta.take(gmeta.len() as int) =~= gmeta);
    }
    let has_body = body.as_str().unicode_len() > 0;
    let is_get = crate::codec::str_eq(req.operation.method(), "GET");
    if has_body && !is_get {
        r = r.body(body);
    }
    proof {
        assert(r@.headers =~= spec_build_transport_request(req@, content_type@, body@).headers);
    }
    r
}

/// Every request built under credentials carries the credential's header.
pub proof fn lemma_auth_header_attached(
    req: A2ARequestView,
    content_type: Seq<char>,
    body: Seq<char>,
    c: crate::auth::AuthCredentialsView,
)
    requires
        req.context.auth == Some(c),
    ensures
        spec_build_transport_request(req, content_type, body).headers.contains(
            (spec_auth_header_name(c), spec_auth_header_value(c)),
        ),
{
    let hs = spec_build_transport_request(req, content_type, body).headers;
    assert(hs[3] == (spec_auth_header_name(c), spec_auth_header_value(c)));
}

/// The error a non-2xx response maps to, by status and parsed body: 401 and
/// 403 are auth errors; a 404 whose body names a task is the missing task,
/// else a protocol error; 429 is the rate limit; anything else is a
/// transport error naming the status. A body without a message text maps
/// to a transport error naming the status alone.
pub open spec fn spec_status_error(status: int, parsed: Option<JsonView>) -> A2AErrorView {
    match spec_error_body_message(parsed) {
        Some(msg) => {
            if status == 401 || status == 403 {
                A2AErrorView::Auth(msg)
            } else if status == 404 {
                match spec_error_body_task_id(parsed) {
                    Some(tid) => A2AErrorView::TaskNotFound { task_id: tid },
                    None => A2AErrorView::Protocol(msg),
                }
            } else if status == 429 {
                A2AErrorView::RateLimitExceeded
            } else {
                A2AErrorView::Transport(
                    "HTTP "@ + spec_int_chars(status) + ": "@ + msg,
                )
            }
        },
        None => A2AErrorView::Transport("HTTP error: "@ + spec_int_chars(status)),
    }
}

/// The `message` text of a parsed error body.
pub open spec fn spec_error_body_message(parsed: Option<JsonView>) -> Option<Seq<char>> {
    match parsed {
        Some(JsonView::Obj(ms)) => if spec_obj_has_key(ms, "message"@) {
            match spec_obj_get(ms, "message"@) {
                JsonView::Str(s) => Some(s),
                _ => None,
            }
        } else {
            None
        },
        _ => None,
    }
}

/// The `taskId` text of a parsed error body.
pub open spec fn spec_error_body_task_id(parsed: Option<JsonView>) -> Option<Seq<char>> {
    match parsed {
        Some(JsonView::Obj(ms)) => if spec_obj_has_key(ms, "taskId"@) {
            match spec_obj_get(ms, "taskId"@) {
                JsonView::Str(s) => Some(s),
                _ => None,
            }
        } else {
            None
        },
        _ => None,
    }
}

/// Map a non-2xx status and its parsed body to the error taxonomy.
pub fn status_to_error(status: u16, parsed: Option<&JsonValue>) -> (r: A2AError)
    ensures
        r@ == spec_status_error(status as int, parsed.deep_view()),
{
    let message = match parsed {
        Some(v) => {
            let is_obj = match v {
                JsonValue::Obj(_) => true,
                _ => false,
            };
            if is_obj {
                match v.get("message") {
                    Some(field) => match field.as_str() {
                        Some(s) => Some(s.clone()),
                        None => None,
                    },
                    None => None,
                }
            } else {
                None
            }
        },
        None => None,
    };
    match message {
        Some(msg) => {
            if status == 401 || status == 403 {
                A2AError::Auth(msg)
            } else if status == 404 {
                let task_id = match parsed {
                    Some(v) => match v.get("taskId") {
                        Some(field) => match field.as_str() {
                            Some(s) => Some(s.clone()),
                            None => None,
                        },
                        None => None,
                    },
                    None => None,
                };
                match task_id {
                    Some(tid) => A2AError::TaskNotFound { task_id: tid },
                    None => A2AError::Protocol(msg),
                }
            } else if status == 429 {
                A2AError::RateLimitExceeded
            } else {
                let mut text = String::from_str("HTTP ");
                text.append(int_to_string(status as i64).as_str());
                text.append(": ");
                text.append(msg.as_str());
                A2AError::Transport(text)
            }
        },
        None => {
            let mut text = String::from_str("HTTP error: ");
            text.append(int_to_string(status as i64).as_str());
            A2AError::Transport(text)
        },
    }
}

/// Map a failed transport response to an error: exactly the status
/// mapping applied to the parsed body.
pub fn handle_error_response(resp: &TransportResponse) -> (r: A2AError)
    ensures
        r@ == spec_status_error(resp@.status as int, spec_parse_json(resp@.body)),
{
    let parsed = parse_json(resp.body.as_str());
    match parsed {
        Some(v) => status_to_error(resp.status, Some(&v)),
        None => status_to_error(resp.status, None),
    }
}

/// The core protocol service: codec in front, transport behind.
#[derive(Debug, Clone)]
pub struct A2AProtocolService<T, C> {
    /// The transport that delivers requests.
    pub transport: T,
    /// The codec that binds operations to wire text.
    pub codec: C,
}

impl<T: Transport, C: Codec> A2AProtocolService<T, C> {
    /// A protocol service over the given transport and codec.
    pub fn new(transport: T, codec: C) -> (r: Self)
        ensures
            r.transport == transport,
            r.codec == codec,
    {
        A2AProtocolService { transport, codec }
    }

    /// Decode a successful transport response; map a failed one to the
    /// error taxonomy. A 2xx body is delegated to the codec unchanged; a
    /// non-2xx response never reaches the codec.
    pub fn parse_transport_response(&self, resp: &TransportResponse, req: &A2ARequest) -> (r:
        Result<A2AResponse, A2AError>)
        ensures
            200 <= resp@.status < 300 ==> decode_matches(
                r,
                self.codec.spec_decode(resp@.body, req@.operation),
            ),
            !(200 <= resp@.status < 300) ==> (r matches Err(e) && e@ == spec_status_error(
                resp@.status as int,
                spec_parse_json(resp@.body),
            )),
    {
        if !resp.is_success() {
            return Err(handle_error_response(resp));
        }
        self.codec.decode_response(resp.body.as_str(), &req.operation)
    }
}

impl<T: Transport, C: Codec> A2AService for A2AProtocolService<T, C> {
    fn poll_ready(&mut self) -> TransportReadiness {
        self.transport.poll_ready()
    }

    fn call(&mut self, request: A2ARequest) -> Result<A2AResponse, A2AError> {
        let body = match self.codec.encode_request(&request.operation) {
            Ok(body) => body,
            Err(e) => {
                return Err(e);
            },
        };
        let transport_req = build_transport_request(
            &request,
            self.codec.content_type(),
            body,
        );
        let transport_resp = match self.transport.execute(transport_req) {
            Ok(resp) => resp,
            Err(e) => {
                return Err(e);
            },
        };
        self.parse_transport_response(&transport_resp, &request)
    }

    fn pause(&mut self, duration_ms: u64) {
        self.transport.pause(duration_ms);
    }
}

} // verus!
