//! The transport abstraction: protocol-agnostic requests and responses, the
//! transport interface, and a scripted transport for exercising the stack.

use vstd::prelude::*;
use crate::error::{A2AError, A2AErrorView};

verus! {

broadcast use vstd::std_specs::vec::group_vec_axioms, vstd::seq::group_seq_axioms;

/// Mathematical model of a [`TransportRequest`].
pub struct TransportRequestView {
    pub endpoint: Seq<char>,
    pub method: Seq<char>,
    pub headers: Seq<(Seq<char>, Seq<char>)>,
    pub body: Seq<char>,
}

/// A protocol-agnostic request: route, method, headers and body text.
#[derive(Debug, Clone, PartialEq)]
pub struct TransportRequest {
    /// The endpoint path, for example `/tasks`.
    pub endpoint: String,
    /// The method, for example `POST` or `GET`.
    pub method: String,
    /// Header names with their values, in insertion order.
    pub headers: Vec<(String, String)>,
    /// The request body text; empty for bodiless requests.
    pub body: String,
}

impl View for TransportRequest {
    type V = TransportRequestView;

    open spec fn view(&self) -> TransportRequestView {
        TransportRequestView {
            endpoint: self.endpoint@,
            method: self.method@,
            headers: self.headers.deep_view(),
            body: self.body@,
        }
    }
}

impl TransportRequest {
    /// A request with no headers and an empty body.
    pub fn new(endpoint: &str, method: &str) -> (r: Self)
        ensures
            r@ == (TransportRequestView {
                endpoint: endpoint@,
                method: method@,
                headers: Seq::empty(),
                body: Seq::empty(),
            }),
    {
        let r = TransportRequest {
            endpoint: endpoint.to_owned(),
            method: method.to_owned(),
            headers: Vec::new(),
            body: String::new(),
        };
        proof {
            assert(r@.headers =~= Seq::<(Seq<char>, Seq<char>)>::empty());
        }
        r
    }

    /// The request with one more header.
    pub fn header(self, key: &str, value: &str) -> (r: Self)
        ensures
            r@ == (TransportRequestView {
                headers: self@.headers.push((key@, value@)),
                ..self@
            }),
    {
        let mut headers = self.headers;
        let ghost gh = headers.deep_view();
        headers.push((key.to_owned(), value.to_owned()));
        proof {
            assert(headers.deep_view() =~= gh.push((key@, value@)));
        }
        TransportRequest { headers, ..self }
    }

    /// The request with its body set.
    pub fn body(self, body: String) -> (r: Self)
        ensures
            r@ == (TransportRequestView { body: body@, ..self@ }),
    {
        TransportRequest { body, ..self }
    }
}

/// Mathematical model of a [`TransportResponse`].
pub struct TransportResponseView {
    pub status: u16,
    pub headers: Seq<(Seq<char>, Seq<char>)>,
    pub body: Seq<char>,
}

/// A protocol-agnostic response: status, headers and body text.
#[derive(Debug, Clone, PartialEq)]
pub struct TransportResponse {
    /// The status code.
    pub status: u16,
    /// Header names with their values.
    pub headers: Vec<(String, String)>,
    /// The response body text.
    pub body: String,
}

impl View for TransportResponse {
    type V = TransportResponseView;

    open spec fn view(&self) -> TransportResponseView {
        TransportResponseView {
            status: self.status,
            headers: self.headers.deep_view(),
            body: self.body@,
        }
    }
}

impl TransportResponse {
    /// A response with the given status, no headers and an empty body.
    pub fn new(status: u16) -> (r: Self)
        ensures
            r@ == (TransportResponseView {
                status,
                headers: Seq::empty(),
                body: Seq::empty(),
            }),
    {
        let r = TransportResponse { status, headers: Vec::new(), body: String::new() };
        proof {
            assert(r@.headers =~= Seq::<(Seq<char>, Seq<char>)>::empty());
        }
        r
    }

    /// The response with one more header.
    pub fn header(self, key: &str, value: &str) -> (r: Self)
        ensures
            r@ == (TransportResponseView {
                headers: self@.headers.push((key@, value@)),
                ..self@
            }),
    {
        let mut headers = self.headers;
        let ghost gh = headers.deep_view();
        headers.push((key.to_owned(), value.to_owned()));
        proof {
            assert(headers.deep_view() =~= gh.push((key@, value@)));
        }
        TransportResponse { headers, ..self }
    }

    /// The response with its body set.
    pub fn body(self, body: String) -> (r: Self)
        ensures
            r@ == (TransportResponseView { body: body@, ..self@ }),
    {
        TransportResponse { body, ..self }
    }

    /// Whether the status signals success.
    pub fn is_success(&self) -> (r: bool)
        ensures
            r == (200 <= self@.status < 300),
    {
        200 <= self.status && self.status < 300
    }

    /// Whether the status signals a client error.
    pub fn is_client_error(&self) -> (r: bool)
        ensures
            r == (400 <= self@.status < 500),
    {
        400 <= self.status && self.status < 500
    }

    /// Whether the status signals a server error.
    pub fn is_server_error(&self) -> (r: bool)
        ensures
            r == (500 <= self@.status < 600),
    {
        500 <= self.status && self.status < 600
    }
}

/// The backpressure signal of a transport.
#[derive(Debug, Clone, PartialEq)]
pub enum TransportReadiness {
    /// The transport accepts a request now.
    Ready,
    /// The transport is busy; try again later.
    Pending,
    /// The transport failed.
    Failed(A2AError),
}

/// A transport delivers protocol-agnostic requests and returns responses.
///
/// Implementations own the I/O; nothing is assumed of what they return.
/// The `pause` hook realises the delay between polling attempts, so that
/// polling loops stay within the verified library.
pub trait Transport: Sized {
    /// Whether the transport accepts a request now.
    fn poll_ready(&mut self) -> TransportReadiness;

    /// Deliver one request and return the response.
    fn execute(&mut self, request: TransportRequest) -> Result<TransportResponse, A2AError>;

    /// The base URL this transport talks to.
    fn base_url(&self) -> String;

    /// Whether this transport supports streaming responses.
    fn supports_streaming(&self) -> bool;

    /// Wait for about the given number of milliseconds.
    fn pause(&mut self, duration_ms: u64);
}

/// A scripted transport: it answers from a fixed list of responses, in
/// order, and records every request it is handed.
#[derive(Debug)]
pub struct MockTransport {
    /// Responses still to hand out, first first.
    pub script: Vec<TransportResponse>,
    /// Requests seen so far, in order.
    pub seen: Vec<TransportRequest>,
    /// Pauses requested so far, in milliseconds.
    pub pauses: Vec<u64>,
}

impl MockTransport {
    /// A transport that will answer with the given responses in order.
    pub fn new(script: Vec<TransportResponse>) -> (r: Self)
        ensures
            r.script == script,
            r.seen@ == Seq::<TransportRequest>::empty(),
            r.pauses@ == Seq::<u64>::empty(),
    {
        MockTransport { script, seen: Vec::new(), pauses: Vec::new() }
    }

    /// How many requests the transport has seen.
    pub fn request_count(&self) -> (r: usize)
        ensures
            r == self.seen@.len(),
    {
        self.seen.len()
    }
}

impl Transport for MockTransport {
    /// A scripted transport is always ready.
    fn poll_ready(&mut self) -> (r: TransportReadiness)
        ensures
            r == TransportReadiness::Ready,
    {
        TransportReadiness::Ready
    }

    /// Record the request; answer with the script's head, or a transport
    /// error once the script is spent.
    fn execute(&mut self, request: TransportRequest) -> (r: Result<TransportResponse, A2AError>)
        ensures
            final(self).seen@ == old(self).seen@.push(request),
            old(self).script@.len() == 0 ==> r is Err && final(self).script@
                == old(self).script@,
            old(self).script@.len() > 0 ==> r == Ok::<TransportResponse, A2AError>(
                old(self).script@[0],
            ) && final(self).script@ == old(self).script@.drop_first(),
    {
        self.seen.push(request);
        if self.script.len() == 0 {
            Err(A2AError::Transport(String::from_str("scripted transport has no response left")))
        } else {
            let head = self.script.remove(0);
            proof {
                assert(self.script@ =~= old(self).script@.drop_first());
            }
            Ok(head)
        }
    }

    fn base_url(&self) -> (r: String)
        ensures
            r@ == "mock://"@,
    {
        String::from_str("mock://")
    }

    fn supports_streaming(&self) -> (r: bool)
        ensures
            !r,
    {
        false
    }

    /// Record the requested pause.
    fn pause(&mut self, duration_ms: u64)
        ensures
            final(self).pauses@ == old(self).pauses@.push(duration_ms),
            final(self).script@ == old(self).script@,
            final(self).seen@ == old(self).seen@,
    {
        self.pauses.push(duration_ms);
    }
}

} // verus!
