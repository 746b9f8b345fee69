//! The client builder: assemble transport, codec, credentials and limits
//! into a layered client.

use vstd::prelude::*;
use crate::auth::{AuthCredentials, AuthLayer, AuthService};
use crate::client::{AgentClient, ClientConfig, ClientConfigView};
use crate::error::A2AError;
use crate::jsoncodec::Codec;
use crate::service::A2AProtocolService;
use crate::transport::Transport;
use crate::validation::A2AValidationService;

verus! {

broadcast use vstd::std_specs::vec::group_vec_axioms, vstd::seq::group_seq_axioms;

/// The service stack a built client runs: validation over the protocol
/// service, with credential injection in front when configured.
pub enum ClientStack<T, C> {
    /// A stack without credentials.
    Plain(A2AValidationService<A2AProtocolService<T, C>>),
    /// A stack that injects credentials.
    WithAuth(AuthService<A2AValidationService<A2AProtocolService<T, C>>>),
}

impl<T: Transport, C: Codec> crate::service::A2AService for ClientStack<T, C> {
    fn poll_ready(&mut self) -> crate::transport::TransportReadiness {
        match self {
            ClientStack::Plain(s) => s.poll_ready(),
            ClientStack::WithAuth(s) => s.poll_ready(),
        }
    }

    fn call(&mut self, request: crate::request::A2ARequest) -> Result<
        crate::response::A2AResponse,
        A2AError,
    > {
        match self {
            ClientStack::Plain(s) => s.call(request),
            ClientStack::WithAuth(s) => s.call(request),
        }
    }

    fn pause(&mut self, duration_ms: u64) {
        match self {
            ClientStack::Plain(s) => s.pause(duration_ms),
            ClientStack::WithAuth(s) => s.pause(duration_ms),
        }
    }
}

/// A fluent builder for clients.
#[derive(Debug)]
pub struct A2AClientBuilder<T, C> {
    /// Base URL of the agent.
    pub agent_url: String,
    /// The transport to use, once set.
    pub transport: Option<T>,
    /// The codec to use, once set.
    pub codec: Option<C>,
    /// Credentials to inject, if any.
    pub auth: Option<AuthCredentials>,
    /// Request timeout in milliseconds, if set.
    pub timeout_ms: Option<u64>,
    /// Maximum number of retry attempts.
    pub max_retries: u32,
    /// Whether responses are validated.
    pub validate_responses: bool,
}

impl<T: Transport, C: Codec> A2AClientBuilder<T, C> {
    /// A builder for the given agent URL, with the defaults: a
    /// thirty-second timeout, three retries, validation on.
    pub fn new(agent_url: &str) -> (r: Self)
        ensures
            r.agent_url@ == agent_url@,
            r.transport is None,
            r.codec is None,
            r.auth is None,
            r.timeout_ms == Some(30000u64),
            r.max_retries == 3u32,
            r.validate_responses,
    {
        A2AClientBuilder {
            agent_url: agent_url.to_owned(),
            transport: None,
            codec: None,
            auth: None,
            timeout_ms: Some(30000),
            max_retries: 3,
            validate_responses: true,
        }
    }

    /// The builder with its transport set.
    pub fn with_transport(self, transport: T) -> (r: Self)
        ensures
            r == (A2AClientBuilder { transport: Some(transport), ..self }),
    {
        A2AClientBuilder { transport: Some(transport), ..self }
    }

    /// The builder with its codec set.
    pub fn with_codec(self, codec: C) -> (r: Self)
        ensures
            r == (A2AClientBuilder { codec: Some(codec), ..self }),
    {
        A2AClientBuilder { codec: Some(codec), ..self }
    }

    /// The builder with bearer-token credentials.
    pub fn with_bearer_auth(self, token: &str) -> (r: Self)
        ensures
            r.auth matches Some(c) && c@ == crate::auth::AuthCredentialsView::Bearer(token@),
    {
        A2AClientBuilder { auth: Some(AuthCredentials::bearer(token)), ..self }
    }

    /// The builder with API-key credentials.
    pub fn with_api_key_auth(self, key: &str, header: &str) -> (r: Self)
        ensures
            r.auth matches Some(c) && c@ == (crate::auth::AuthCredentialsView::ApiKey {
                key: key@,
                header: header@,
            }),
    {
        A2AClientBuilder { auth: Some(AuthCredentials::api_key(key, header)), ..self }
    }

    /// The builder with basic credentials.
    pub fn with_basic_auth(self, username: &str, password: &str) -> (r: Self)
        ensures
            r.auth matches Some(c) && c@ == (crate::auth::AuthCredentialsView::Basic {
                username: username@,
                password: password@,
            }),
    {
        A2AClientBuilder { auth: Some(AuthCredentials::basic(username, password)), ..self }
    }

    /// The builder with the given credentials.
    pub fn with_auth(self, credentials: AuthCredentials) -> (r: Self)
        ensures
            r == (A2AClientBuilder { auth: Some(credentials), ..self }),
    {
        A2AClientBuilder { auth: Some(credentials), ..self }
    }

    /// The builder with a request timeout, in milliseconds.
    pub fn with_timeout(self, timeout_ms: u64) -> (r: Self)
        ensures
            r == (A2AClientBuilder { timeout_ms: Some(timeout_ms), ..self }),
    {
        A2AClientBuilder { timeout_ms: Some(timeout_ms), ..self }
    }

    /// The builder with a retry cap.
    pub fn with_max_retries(self, max_retries: u32) -> (r: Self)
        ensures
            r == (A2AClientBuilder { max_retries, ..self }),
    {
        A2AClientBuilder { max_retries, ..self }
    }

    /// The builder with response validation on or off.
    pub fn with_validation(self, enabled: bool) -> (r: Self)
        ensures
            r == (A2AClientBuilder { validate_responses: enabled, ..self }),
    {
        A2AClientBuilder { validate_responses: enabled, ..self }
    }

    /// Assemble the client: the protocol service over the transport and
    /// codec, wrapped in validation, wrapped in credential injection when
    /// credentials were given. Fails when no transport or no codec was
    /// configured.
    pub fn build(self) -> (r: Result<AgentClient<ClientStack<T, C>>, A2AError>)
        ensures
            r is Ok <==> (self.transport is Some && self.codec is Some),
            r matches Ok(client) ==> client.config@ == (ClientConfigView {
                agent_url: self.agent_url@,
                timeout_ms: match self.timeout_ms {
                    Some(t) => t,
                    None => 30000,
                },
                max_retries: self.max_retries,
                validate_responses: self.validate_responses,
            }),
    {
        let transport = match self.transport {
            Some(t) => t,
            None => {
                return Err(A2AError::Protocol(String::from_str(
                    "Transport not configured. Call with_transport()",
                )));
            },
        };
        let codec = match self.codec {
            Some(c) => c,
            None => {
                return Err(A2AError::Protocol(String::from_str(
                    "Codec not configured. Call with_codec()",
                )));
            },
        };
        let service = A2AProtocolService::new(transport, codec);
        let validated = A2AValidationService { inner: service, enabled: self.validate_responses };
        let stack = match self.auth {
            Some(credentials) => ClientStack::WithAuth(AuthLayer::new(credentials).layer(
                validated,
            )),
            None => ClientStack::Plain(validated),
        };
        let timeout_ms = match self.timeout_ms {
            Some(t) => t,
            None => 30000,
        };
        let config = ClientConfig {
            agent_url: self.agent_url,
            timeout_ms,
            max_retries: self.max_retries,
            validate_responses: self.validate_responses,
        };
        Ok(AgentClient::new(stack, config))
    }
}

} // verus!
