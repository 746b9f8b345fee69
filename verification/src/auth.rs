//! Credentials and the header each kind emits.

use vstd::prelude::*;
use vstd::utf8::encode_utf8;
use vstd::string::StringSliceAdditionalSpecFns;
use base64::Engine as _;

verus! {

broadcast use vstd::std_specs::vec::group_vec_axioms, vstd::seq::group_seq_axioms;

/// One character of the standard base64 alphabet.
pub open spec fn spec_base64_char(n: int) -> char {
    if n < 26 {
        ((65 + n) as u8) as char
    } else if n < 52 {
        ((71 + n) as u8) as char
    } else if n < 62 {
        ((n - 4) as u8) as char
    } else if n == 62 {
        '+'
    } else {
        '/'
    }
}

/// Standard base64 with padding: three bytes become four characters; one
/// or two trailing bytes pad with `=`.
pub open spec fn spec_base64(bytes: Seq<u8>) -> Seq<char>
    decreases bytes.len(),
{
    if bytes.len() == 0 {
        Seq::empty()
    } else if bytes.len() == 1 {
        let b0 = bytes[0] as int;
        seq![
            spec_base64_char(b0 / 4),
            spec_base64_char((b0 % 4) * 16),
            '=',
            '=',
        ]
    } else if bytes.len() == 2 {
        let b0 = bytes[0] as int;
        let b1 = bytes[1] as int;
        seq![
            spec_base64_char(b0 / 4),
            spec_base64_char((b0 % 4) * 16 + b1 / 16),
            spec_base64_char((b1 % 16) * 4),
            '=',
        ]
    } else {
        let b0 = bytes[0] as int;
        let b1 = bytes[1] as int;
        let b2 = bytes[2] as int;
        seq![
            spec_base64_char(b0 / 4),
            spec_base64_char((b0 % 4) * 16 + b1 / 16),
            spec_base64_char((b1 % 16) * 4 + b2 / 64),
            spec_base64_char(b2 % 64),
        ] + spec_base64(bytes.skip(3))
    }
}

/// Relies on base64's `STANDARD` engine: the standard alphabet, padded, as
/// `spec_base64` lays out.
#[verifier::external_body]
fn base64_encode(s: &str) -> (r: String)
    ensures
        r@ == spec_base64(s.spec_bytes()),
{
    base64::engine::general_purpose::STANDARD.encode(s)
}

/// Mathematical model of [`AuthCredentials`].
pub enum AuthCredentialsView {
    Bearer(Seq<char>),
    ApiKey { key: Seq<char>, header: Seq<char> },
    Basic { username: Seq<char>, password: Seq<char> },
}

/// Credentials a client authenticates with.
#[derive(Debug, PartialEq)]
pub enum AuthCredentials {
    /// A bearer token.
    Bearer(String),
    /// An API key carried in a named header.
    ApiKey {
        /// The key value.
        key: String,
        /// The header that carries it.
        header: String,
    },
    /// HTTP basic authentication.
    Basic {
        /// The user name.
        username: String,
        /// The password.
        password: String,
    },
}

impl View for AuthCredentials {
    type V = AuthCredentialsView;

    open spec fn view(&self) -> AuthCredentialsView {
        match self {
            AuthCredentials::Bearer(t) => AuthCredentialsView::Bearer(t@),
            AuthCredentials::ApiKey { key, header } => AuthCredentialsView::ApiKey {
                key: key@,
                header: header@,
            },
            AuthCredentials::Basic { username, password } => AuthCredentialsView::Basic {
                username: username@,
                password: password@,
            },
        }
    }
}

impl Clone for AuthCredentials {
    /// A copy with the same view.
    fn clone(&self) -> (r: Self)
        ensures
            r@ == self@,
    {
        match self {
            AuthCredentials::Bearer(t) => AuthCredentials::Bearer(t.clone()),
            AuthCredentials::ApiKey { key, header } => AuthCredentials::ApiKey {
                key: key.clone(),
                header: header.clone(),
            },
            AuthCredentials::Basic { username, password } => AuthCredentials::Basic {
                username: username.clone(),
                password: password.clone(),
            },
        }
    }
}

impl DeepView for AuthCredentials {
    type V = AuthCredentialsView;

    open spec fn deep_view(&self) -> AuthCredentialsView {
        self.view()
    }
}

/// The header name a credential emits.
pub open spec fn spec_auth_header_name(c: AuthCredentialsView) -> Seq<char> {
    match c {
        AuthCredentialsView::Bearer(_) => "Authorization"@,
        AuthCredentialsView::ApiKey { header, .. } => header,
        AuthCredentialsView::Basic { .. } => "Authorization"@,
    }
}

/// The header value a credential emits: `Bearer <token>`, the key itself,
/// or `Basic` with the base64 of `user:password`.
pub open spec fn spec_auth_header_value(c: AuthCredentialsView) -> Seq<char> {
    match c {
        AuthCredentialsView::Bearer(token) => "Bearer "@ + token,
        AuthCredentialsView::ApiKey { key, .. } => key,
        AuthCredentialsView::Basic { username, password } => "Basic "@ + spec_base64(
            encode_utf8(username + seq![':'] + password),
        ),
    }
}

impl AuthCredentials {
    /// Bearer-token credentials.
    pub fn bearer(token: &str) -> (r: Self)
        ensures
            r@ == AuthCredentialsView::Bearer(token@),
    {
        AuthCredentials::Bearer(token.to_owned())
    }

    /// API-key credentials under the given header.
    pub fn api_key(key: &str, header: &str) -> (r: Self)
        ensures
            r@ == (AuthCredentialsView::ApiKey { key: key@, header: header@ }),
    {
        AuthCredentials::ApiKey { key: key.to_owned(), header: header.to_owned() }
    }

    /// Basic credentials.
    pub fn basic(username: &str, password: &str) -> (r: Self)
        ensures
            r@ == (AuthCredentialsView::Basic { username: username@, password: password@ }),
    {
        AuthCredentials::Basic { username: username.to_owned(), password: password.to_owned() }
    }

    /// The header this credential emits, as a name and a value.
    pub fn to_header(&self) -> (r: (String, String))
        ensures
            r.0@ == spec_auth_header_name(self@),
            r.1@ == spec_auth_header_value(self@),
    {
        match self {
            AuthCredentials::Bearer(token) => {
                let mut value = String::from_str("Bearer ");
                value.append(token.as_str());
                (String::from_str("Authorization"), value)
            },
            AuthCredentials::ApiKey { key, header } => (header.clone(), key.clone()),
            AuthCredentials::Basic { username, password } => {
                let mut creds = username.clone();
                creds.append(":");
                creds.append(password.as_str());
                proof {
                    reveal_strlit(":");
                    assert(creds@ =~= username@ + seq![':'] + password@);
                }
                let encoded = base64_encode(creds.as_str());
                let mut value = String::from_str("Basic ");
                value.append(encoded.as_str());
                (String::from_str("Authorization"), value)
            },
        }
    }
}

/// The auth layer: owns credentials and attaches them to every request.
#[derive(Debug, Clone)]
pub struct AuthLayer {
    /// The credentials this layer injects.
    pub credentials: AuthCredentials,
}

impl AuthLayer {
    /// A layer that injects the given credentials.
    pub fn new(credentials: AuthCredentials) -> (r: Self)
        ensures
            r.credentials == credentials,
    {
        AuthLayer { credentials }
    }

    /// A layer that injects a bearer token.
    pub fn bearer(token: &str) -> (r: Self)
        ensures
            r.credentials@ == AuthCredentialsView::Bearer(token@),
    {
        AuthLayer { credentials: AuthCredentials::bearer(token) }
    }

    /// A layer that injects an API key under the given header.
    pub fn api_key(key: &str, header: &str) -> (r: Self)
        ensures
            r.credentials@ == (AuthCredentialsView::ApiKey { key: key@, header: header@ }),
    {
        AuthLayer { credentials: AuthCredentials::api_key(key, header) }
    }

    /// Wrap an inner service in credential injection.
    pub fn layer<S: crate::service::A2AService>(&self, inner: S) -> (r: AuthService<S>)
        ensures
            r.inner == inner,
            r.credentials@ == self.credentials@,
    {
        AuthService { inner, credentials: self.credentials.clone() }
    }
}

/// A service that sets its credentials on each request's context before
/// the inner service runs.
#[derive(Debug, Clone)]
pub struct AuthService<S> {
    /// The wrapped service.
    pub inner: S,
    /// The credentials to inject, when set.
    pub credentials: AuthCredentials,
}

impl<S> AuthService<S> {
    /// Attach this service's credentials to a request: the context's auth
    /// is set, everything else is untouched.
    pub fn inject(&self, request: crate::request::A2ARequest) -> (r: crate::request::A2ARequest)
        ensures
            r@.operation == request@.operation,
            r@.context.auth == Some(self.credentials@),
            r@.context.agent_url == request@.context.agent_url,
            r@.context.timeout_ms == request@.context.timeout_ms,
            r@.context.metadata == request@.context.metadata,
    {
        crate::request::A2ARequest {
            context: crate::request::RequestContext {
                auth: Some(self.credentials.clone()),
                ..request.context
            },
            ..request
        }
    }
}

impl<S: crate::service::A2AService> crate::service::A2AService for AuthService<S> {
    fn poll_ready(&mut self) -> crate::transport::TransportReadiness {
        self.inner.poll_ready()
    }

    /// Execute one request with the credentials attached, as `inject`
    /// lays out, through the inner service.
    fn call(&mut self, request: crate::request::A2ARequest) -> Result<
        crate::response::A2AResponse,
        crate::error::A2AError,
    > {
        let with_auth = self.inject(request);
        self.inner.call(with_auth)
    }

    fn pause(&mut self, duration_ms: u64) {
        self.inner.pause(duration_ms);
    }
}

} // verus!
