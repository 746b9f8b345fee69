//! Service-level requests: an operation plus its execution context.

use vstd::prelude::*;
use crate::auth::{AuthCredentials, AuthCredentialsView};
use crate::operation::{A2AOperation, A2AOperationView};

verus! {

broadcast use vstd::std_specs::vec::group_vec_axioms, vstd::seq::group_seq_axioms;

/// Mathematical model of a [`RequestContext`].
pub struct RequestContextView {
    pub agent_url: Seq<char>,
    pub auth: Option<AuthCredentialsView>,
    pub timeout_ms: Option<u64>,
    pub metadata: Seq<(Seq<char>, Seq<char>)>,
}

/// Per-request context: target URL, credentials, timeout, extra headers.
#[derive(Debug, Clone, PartialEq)]
pub struct RequestContext {
    /// Base URL of the target agent.
    pub agent_url: String,
    /// Credentials to attach, if any.
    pub auth: Option<AuthCredentials>,
    /// Request timeout in milliseconds, if any.
    pub timeout_ms: Option<u64>,
    /// Additional metadata headers.
    pub metadata: Vec<(String, String)>,
}

impl View for RequestContext {
    type V = RequestContextView;

    open spec fn view(&self) -> RequestContextView {
        RequestContextView {
            agent_url: self.agent_url@,
            auth: self.auth.deep_view(),
            timeout_ms: self.timeout_ms,
            metadata: self.metadata.deep_view(),
        }
    }
}

/// The default per-request timeout, in milliseconds.
pub const DEFAULT_TIMEOUT_MS: u64 = 30000;

impl RequestContext {
    /// A context for the given agent URL, with the default timeout.
    pub fn new(agent_url: &str) -> (r: Self)
        ensures
            r@ == (RequestContextView {
                agent_url: agent_url@,
                auth: None,
                timeout_ms: Some(DEFAULT_TIMEOUT_MS),
                metadata: Seq::empty(),
            }),
    {
        let r = RequestContext {
            agent_url: agent_url.to_owned(),
            auth: None,
            timeout_ms: Some(DEFAULT_TIMEOUT_MS),
            metadata: Vec::new(),
        };
        proof {
            assert(r@.metadata =~= Seq::<(Seq<char>, Seq<char>)>::empty());
        }
        r
    }

    /// The context with credentials attached.
    pub fn with_auth(self, auth: AuthCredentials) -> (r: Self)
        ensures
            r@ == (RequestContextView { auth: Some(auth@), ..self@ }),
    {
        RequestContext { auth: Some(auth), ..self }
    }

    /// The context with a timeout, in milliseconds.
    pub fn with_timeout(self, timeout_ms: u64) -> (r: Self)
        ensures
            r@ == (RequestContextView { timeout_ms: Some(timeout_ms), ..self@ }),
    {
        RequestContext { timeout_ms: Some(timeout_ms), ..self }
    }

    /// The context with a metadata header inserted, replacing the first
    /// header with the same name if one exists.
    pub fn with_metadata(self, key: &str, value: &str) -> (r: Self)
        ensures
            r@ == (RequestContextView {
                metadata: spec_upsert_meta(self@.metadata, key@, value@),
                ..self@
            }),
    {
        let mut metadata = self.metadata;
        upsert_meta(&mut metadata, key, value);
        RequestContext { metadata, ..self }
    }
}


/// Update the first header holding the name, or append a new one.
pub open spec fn spec_upsert_meta(
    ms: Seq<(Seq<char>, Seq<char>)>,
    key: Seq<char>,
    value: Seq<char>,
) -> Seq<(Seq<char>, Seq<char>)>
    decreases ms.len(),
{
    if ms.len() == 0 {
        seq![(key, value)]
    } else if ms[0].0 == key {
        seq![(key, value)] + ms.drop_first()
    } else {
        seq![ms[0]] + spec_upsert_meta(ms.drop_first(), key, value)
    }
}

proof fn lemma_upsert_meta_update(
    ms: Seq<(Seq<char>, Seq<char>)>,
    key: Seq<char>,
    value: Seq<char>,
    i: int,
)
    requires
        0 <= i < ms.len(),
        ms[i].0 == key,
        forall|j: int| 0 <= j < i ==> ms[j].0 != key,
    ensures
        spec_upsert_meta(ms, key, value) == ms.update(i, (key, value)),
    decreases i,
{
    if i == 0 {
        assert(spec_upsert_meta(ms, key, value) =~= ms.update(0, (key, value)));
    } else {
        lemma_upsert_meta_update(ms.drop_first(), key, value, i - 1);
        assert(ms.update(i, (key, value)).drop_first() =~= ms.drop_first().update(
            i - 1,
            (key, value),
        ));
        assert(spec_upsert_meta(ms, key, value) =~= ms.update(i, (key, value)));
    }
}

proof fn lemma_upsert_meta_append(ms: Seq<(Seq<char>, Seq<char>)>, key: Seq<char>, value: Seq<char>)
    requires
        forall|j: int| 0 <= j < ms.len() ==> ms[j].0 != key,
    ensures
        spec_upsert_meta(ms, key, value) == ms.push((key, value)),
    decreases ms.len(),
{
    if ms.len() == 0 {
        assert(spec_upsert_meta(ms, key, value) =~= ms.push((key, value)));
    } else {
        lemma_upsert_meta_append(ms.drop_first(), key, value);
        assert(ms.push((key, value)).drop_first() =~= ms.drop_first().push((key, value)));
        assert(spec_upsert_meta(ms, key, value) =~= ms.push((key, value)));
    }
}

/// Insert a header into a name-value vector, replacing the first header
/// with the same name if one exists.
#[verifier::loop_isolation(false)]
fn upsert_meta(ms: &mut Vec<(String, String)>, key: &str, value: &str) -> (nothing: ())
    ensures
        final(ms).deep_view() == spec_upsert_meta(old(ms).deep_view(), key@, value@),
{
    let key_owned = key.to_owned();
    let ghost gms = ms.deep_view();
    let mut i: usize = 0;
    while i < ms.len()
        invariant
            i <= ms@.len(),
            gms.len() == ms@.len(),
            forall|j: int| 0 <= j < gms.len() ==> gms[j] == (ms@[j].0@, ms@[j].1@),
            forall|j: int| 0 <= j < i ==> gms[j].0 != key@,
        decreases ms@.len() - i,
    {
        if ms[i].0 == key_owned {
            ms.remove(i);
            ms.insert(i, (key_owned, value.to_owned()));
            proof {
                lemma_upsert_meta_update(gms, key@, value@, i as int);
                assert(ms.deep_view() =~= gms.update(i as int, (key@, value@)));
            }
            return ();
        }
        i += 1;
    }
    ms.push((key_owned, value.to_owned()));
    proof {
        lemma_upsert_meta_append(gms, key@, value@);
        assert(ms.deep_view() =~= gms.push((key@, value@)));
    }
}

/// Mathematical model of an [`A2ARequest`].
pub struct A2ARequestView {
    pub operation: A2AOperationView,
    pub context: RequestContextView,
}

/// A request to the service: the operation and its context.
#[derive(Debug, Clone)]
pub struct A2ARequest {
    /// The operation to execute.
    pub operation: A2AOperation,
    /// The execution context.
    pub context: RequestContext,
}

impl View for A2ARequest {
    type V = A2ARequestView;

    open spec fn view(&self) -> A2ARequestView {
        A2ARequestView { operation: self.operation@, context: self.context@ }
    }
}

impl A2ARequest {
    /// A request from an operation and a context.
    pub fn new(operation: A2AOperation, context: RequestContext) -> (r: Self)
        ensures
            r@ == (A2ARequestView { operation: operation@, context: context@ }),
    {
        A2ARequest { operation, context }
    }
}

} // verus!
