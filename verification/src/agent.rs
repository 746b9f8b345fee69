//! Agent discovery: the agent card and its capability and security types.

use vstd::prelude::*;

verus! {

broadcast use vstd::std_specs::vec::group_vec_axioms, vstd::seq::group_seq_axioms;

/// Mathematical model of an [`AgentScope`].
pub struct AgentScopeView {
    pub scope_type: Seq<char>,
    pub scope_id: Seq<char>,
}

/// Scope entry for granular access control.
#[derive(Debug, Clone, PartialEq)]
pub struct AgentScope {
    /// Kind of the scope.
    pub scope_type: String,
    /// Identifier of the scoped object.
    pub scope_id: String,
}

impl View for AgentScope {
    type V = AgentScopeView;

    open spec fn view(&self) -> AgentScopeView {
        AgentScopeView { scope_type: self.scope_type@, scope_id: self.scope_id@ }
    }
}

impl DeepView for AgentScope {
    type V = AgentScopeView;

    open spec fn deep_view(&self) -> AgentScopeView {
        self.view()
    }
}

/// Mathematical model of [`AgentCapabilities`].
pub struct AgentCapabilitiesView {
    pub streaming: bool,
    pub push_notifications: bool,
    pub task_management: bool,
    pub multi_turn: bool,
    pub supported_part_types: Option<Seq<Seq<char>>>,
}

/// Capability flags an agent advertises.
#[derive(Debug, Clone, PartialEq)]
pub struct AgentCapabilities {
    /// Supports streaming responses.
    pub streaming: bool,
    /// Supports push notifications via webhooks.
    pub push_notifications: bool,
    /// Supports task management (get, list, cancel).
    pub task_management: bool,
    /// Supports multi-turn conversations with context.
    pub multi_turn: bool,
    /// Supported message part types.
    pub supported_part_types: Option<Vec<String>>,
}

impl View for AgentCapabilities {
    type V = AgentCapabilitiesView;

    open spec fn view(&self) -> AgentCapabilitiesView {
        AgentCapabilitiesView {
            streaming: self.streaming,
            push_notifications: self.push_notifications,
            task_management: self.task_management,
            multi_turn: self.multi_turn,
            supported_part_types: self.supported_part_types.deep_view(),
        }
    }
}

impl DeepView for AgentCapabilities {
    type V = AgentCapabilitiesView;

    open spec fn deep_view(&self) -> AgentCapabilitiesView {
        self.view()
    }
}

impl AgentCapabilities {
    /// Capabilities with every flag off.
    pub fn new() -> (r: Self)
        ensures
            r@ == (AgentCapabilitiesView {
                streaming: false,
                push_notifications: false,
                task_management: false,
                multi_turn: false,
                supported_part_types: None,
            }),
    {
        AgentCapabilities {
            streaming: false,
            push_notifications: false,
            task_management: false,
            multi_turn: false,
            supported_part_types: None,
        }
    }

    /// With streaming enabled.
    pub fn with_streaming(self) -> (r: Self)
        ensures
            r@ == (AgentCapabilitiesView { streaming: true, ..self@ }),
    {
        AgentCapabilities { streaming: true, ..self }
    }

    /// With push notifications enabled.
    pub fn with_push_notifications(self) -> (r: Self)
        ensures
            r@ == (AgentCapabilitiesView { push_notifications: true, ..self@ }),
    {
        AgentCapabilities { push_notifications: true, ..self }
    }

    /// With task management enabled.
    pub fn with_task_management(self) -> (r: Self)
        ensures
            r@ == (AgentCapabilitiesView { task_management: true, ..self@ }),
    {
        AgentCapabilities { task_management: true, ..self }
    }

    /// With multi-turn conversations enabled.
    pub fn with_multi_turn(self) -> (r: Self)
        ensures
            r@ == (AgentCapabilitiesView { multi_turn: true, ..self@ }),
    {
        AgentCapabilities { multi_turn: true, ..self }
    }
}

/// Mathematical model of an [`ApiKeySecurityScheme`].
pub struct ApiKeySecuritySchemeView {
    pub description: Option<Seq<char>>,
    pub location: Seq<char>,
    pub name: Seq<char>,
}

/// API key security scheme.
#[derive(Debug, Clone, PartialEq)]
pub struct ApiKeySecurityScheme {
    /// Human-readable description.
    pub description: Option<String>,
    /// Where the key is carried (for example `header`).
    pub location: String,
    /// Name of the header or parameter.
    pub name: String,
}

impl View for ApiKeySecurityScheme {
    type V = ApiKeySecuritySchemeView;

    open spec fn view(&self) -> ApiKeySecuritySchemeView {
        ApiKeySecuritySchemeView {
            description: self.description.deep_view(),
            location: self.location@,
            name: self.name@,
        }
    }
}

impl DeepView for ApiKeySecurityScheme {
    type V = ApiKeySecuritySchemeView;

    open spec fn deep_view(&self) -> ApiKeySecuritySchemeView {
        self.view()
    }
}

/// Mathematical model of an [`HttpAuthSecurityScheme`].
pub struct HttpAuthSecuritySchemeView {
    pub description: Option<Seq<char>>,
    pub scheme: Seq<char>,
    pub bearer_format: Option<Seq<char>>,
}

/// HTTP authentication security scheme.
#[derive(Debug, Clone, PartialEq)]
pub struct HttpAuthSecurityScheme {
    /// Human-readable description.
    pub description: Option<String>,
    /// The HTTP authentication scheme (for example `bearer`).
    pub scheme: String,
    /// Format of the bearer token.
    pub bearer_format: Option<String>,
}

impl View for HttpAuthSecurityScheme {
    type V = HttpAuthSecuritySchemeView;

    open spec fn view(&self) -> HttpAuthSecuritySchemeView {
        HttpAuthSecuritySchemeView {
            description: self.description.deep_view(),
            scheme: self.scheme@,
            bearer_format: self.bearer_format.deep_view(),
        }
    }
}

impl DeepView for HttpAuthSecurityScheme {
    type V = HttpAuthSecuritySchemeView;

    open spec fn deep_view(&self) -> HttpAuthSecuritySchemeView {
        self.view()
    }
}

/// Mathematical model of an [`OAuthFlow`].
pub struct OAuthFlowView {
    pub authorization_url: Option<Seq<char>>,
    pub token_url: Option<Seq<char>>,
    pub refresh_url: Option<Seq<char>>,
    pub scopes: Seq<(Seq<char>, Seq<char>)>,
}

/// One OAuth flow configuration.
#[derive(Debug, Clone, PartialEq)]
pub struct OAuthFlow {
    /// Authorization endpoint URL.
    pub authorization_url: Option<String>,
    /// Token endpoint URL.
    pub token_url: Option<String>,
    /// Refresh endpoint URL.
    pub refresh_url: Option<String>,
    /// Scope names with their descriptions.
    pub scopes: Vec<(String, String)>,
}

impl View for OAuthFlow {
    type V = OAuthFlowView;

    open spec fn view(&self) -> OAuthFlowView {
        OAuthFlowView {
            authorization_url: self.authorization_url.deep_view(),
            token_url: self.token_url.deep_view(),
            refresh_url: self.refresh_url.deep_view(),
            scopes: self.scopes.deep_view(),
        }
    }
}

impl DeepView for OAuthFlow {
    type V = OAuthFlowView;

    open spec fn deep_view(&self) -> OAuthFlowView {
        self.view()
    }
}

/// Mathematical model of [`OAuthFlows`].
pub struct OAuthFlowsView {
    pub authorization_code: Option<OAuthFlowView>,
    pub client_credentials: Option<OAuthFlowView>,
    pub implicit: Option<OAuthFlowView>,
    pub password: Option<OAuthFlowView>,
}

/// The OAuth flows an agent supports.
#[derive(Debug, Clone, PartialEq)]
pub struct OAuthFlows {
    /// Authorization-code flow.
    pub authorization_code: Option<OAuthFlow>,
    /// Client-credentials flow.
    pub client_credentials: Option<OAuthFlow>,
    /// Implicit flow.
    pub implicit: Option<OAuthFlow>,
    /// Resource-owner password flow.
    pub password: Option<OAuthFlow>,
}

impl View for OAuthFlows {
    type V = OAuthFlowsView;

    open spec fn view(&self) -> OAuthFlowsView {
        OAuthFlowsView {
            authorization_code: self.authorization_code.deep_view(),
            client_credentials: self.client_credentials.deep_view(),
            implicit: self.implicit.deep_view(),
            password: self.password.deep_view(),
        }
    }
}

impl DeepView for OAuthFlows {
    type V = OAuthFlowsView;

    open spec fn deep_view(&self) -> OAuthFlowsView {
        self.view()
    }
}

/// Mathematical model of an [`OAuth2SecurityScheme`].
pub struct OAuth2SecuritySchemeView {
    pub description: Option<Seq<char>>,
    pub flows: OAuthFlowsView,
    pub oauth2_metadata_url: Option<Seq<char>>,
}

/// OAuth2 security scheme.
#[derive(Debug, Clone, PartialEq)]
pub struct OAuth2SecurityScheme {
    /// Human-readable description.
    pub description: Option<String>,
    /// Supported flows.
    pub flows: OAuthFlows,
    /// Metadata endpoint URL.
    pub oauth2_metadata_url: Option<String>,
}

impl View for OAuth2SecurityScheme {
    type V = OAuth2SecuritySchemeView;

    open spec fn view(&self) -> OAuth2SecuritySchemeView {
        OAuth2SecuritySchemeView {
            description: self.description.deep_view(),
            flows: self.flows@,
            oauth2_metadata_url: self.oauth2_metadata_url.deep_view(),
        }
    }
}

impl DeepView for OAuth2SecurityScheme {
    type V = OAuth2SecuritySchemeView;

    open spec fn deep_view(&self) -> OAuth2SecuritySchemeView {
        self.view()
    }
}

/// Mathematical model of an [`OpenIdConnectSecurityScheme`].
pub struct OpenIdConnectSecuritySchemeView {
    pub description: Option<Seq<char>>,
    pub open_id_connect_url: Seq<char>,
}

/// OpenID Connect security scheme.
#[derive(Debug, Clone, PartialEq)]
pub struct OpenIdConnectSecurityScheme {
    /// Human-readable description.
    pub description: Option<String>,
    /// Discovery endpoint URL.
    pub open_id_connect_url: String,
}

impl View for OpenIdConnectSecurityScheme {
    type V = OpenIdConnectSecuritySchemeView;

    open spec fn view(&self) -> OpenIdConnectSecuritySchemeView {
        OpenIdConnectSecuritySchemeView {
            description: self.description.deep_view(),
            open_id_connect_url: self.open_id_connect_url@,
        }
    }
}

impl DeepView for OpenIdConnectSecurityScheme {
    type V = OpenIdConnectSecuritySchemeView;

    open spec fn deep_view(&self) -> OpenIdConnectSecuritySchemeView {
        self.view()
    }
}

/// Mathematical model of a [`SecurityScheme`].
pub enum SecuritySchemeView {
    ApiKey(ApiKeySecuritySchemeView),
    HttpAuth(HttpAuthSecuritySchemeView),
    OAuth2(OAuth2SecuritySchemeView),
    OpenIdConnect(OpenIdConnectSecuritySchemeView),
}

/// A security scheme an agent accepts.
#[derive(Debug, Clone, PartialEq)]
pub enum SecurityScheme {
    /// API key authentication.
    ApiKey(ApiKeySecurityScheme),
    /// HTTP authentication.
    HttpAuth(HttpAuthSecurityScheme),
    /// OAuth2 authentication.
    OAuth2(Box<OAuth2SecurityScheme>),
    /// OpenID Connect authentication.
    OpenIdConnect(OpenIdConnectSecurityScheme),
}

impl View for SecurityScheme {
    type V = SecuritySchemeView;

    open spec fn view(&self) -> SecuritySchemeView {
        match self {
            SecurityScheme::ApiKey(s) => SecuritySchemeView::ApiKey(s@),
            SecurityScheme::HttpAuth(s) => SecuritySchemeView::HttpAuth(s@),
            SecurityScheme::OAuth2(s) => SecuritySchemeView::OAuth2(s@),
            SecurityScheme::OpenIdConnect(s) => SecuritySchemeView::OpenIdConnect(s@),
        }
    }
}

impl DeepView for SecurityScheme {
    type V = SecuritySchemeView;

    open spec fn deep_view(&self) -> SecuritySchemeView {
        self.view()
    }
}

/// Mathematical model of an [`EndpointConfig`].
pub struct EndpointConfigView {
    pub url: Seq<char>,
    pub endpoint_type: Seq<char>,
    pub preferred: bool,
}

/// Endpoint configuration for one binding.
#[derive(Debug, Clone, PartialEq)]
pub struct EndpointConfig {
    /// Base URL of the endpoint.
    pub url: String,
    /// Binding name, for example `http+json` or `json-rpc`.
    pub endpoint_type: String,
    /// Whether this endpoint is preferred.
    pub preferred: bool,
}

impl View for EndpointConfig {
    type V = EndpointConfigView;

    open spec fn view(&self) -> EndpointConfigView {
        EndpointConfigView {
            url: self.url@,
            endpoint_type: self.endpoint_type@,
            preferred: self.preferred,
        }
    }
}

impl DeepView for EndpointConfig {
    type V = EndpointConfigView;

    open spec fn deep_view(&self) -> EndpointConfigView {
        self.view()
    }
}

impl EndpointConfig {
    /// An endpoint configuration, not preferred.
    pub fn new(url: &str, endpoint_type: &str) -> (r: Self)
        ensures
            r@ == (EndpointConfigView {
                url: url@,
                endpoint_type: endpoint_type@,
                preferred: false,
            }),
    {
        EndpointConfig {
            url: url.to_owned(),
            endpoint_type: endpoint_type.to_owned(),
            preferred: false,
        }
    }

    /// The same endpoint, marked preferred.
    pub fn preferred(self) -> (r: Self)
        ensures
            r@ == (EndpointConfigView { preferred: true, ..self@ }),
    {
        EndpointConfig { preferred: true, ..self }
    }
}

/// Mathematical model of an [`AgentCard`].
pub struct AgentCardView {
    pub id: Option<Seq<char>>,
    pub organization_id: Option<Seq<char>>,
    pub name: Seq<char>,
    pub description: Seq<char>,
    pub capabilities: AgentCapabilitiesView,
    pub authentication: Option<Seq<SecuritySchemeView>>,
    pub endpoints: Seq<(Seq<char>, EndpointConfigView)>,
    pub version: Option<Seq<char>>,
    pub documentation_url: Option<Seq<char>>,
    pub scopes: Option<Seq<AgentScopeView>>,
}

impl AgentCardView {
    /// The card invariant: a name and at least one endpoint.
    pub open spec fn wf(self) -> bool {
        self.name.len() > 0 && self.endpoints.len() >= 1
    }
}

/// Discovery document published at `/.well-known/agent-card.json`.
#[derive(Debug, Clone, PartialEq)]
pub struct AgentCard {
    /// Storage identifier, not part of the protocol.
    pub id: Option<String>,
    /// Organization identifier, not part of the protocol.
    pub organization_id: Option<String>,
    /// Name of the agent.
    pub name: String,
    /// Human-readable description.
    pub description: String,
    /// Capability flags.
    pub capabilities: AgentCapabilities,
    /// Accepted security schemes.
    pub authentication: Option<Vec<SecurityScheme>>,
    /// Endpoint configurations, keyed by binding name.
    pub endpoints: Vec<(String, EndpointConfig)>,
    /// Agent version.
    pub version: Option<String>,
    /// URL of the agent's documentation.
    pub documentation_url: Option<String>,
    /// Access control scopes, not part of the protocol.
    pub scopes: Option<Vec<AgentScope>>,
}

impl View for AgentCard {
    type V = AgentCardView;

    open spec fn view(&self) -> AgentCardView {
        AgentCardView {
            id: self.id.deep_view(),
            organization_id: self.organization_id.deep_view(),
            name: self.name@,
            description: self.description@,
            capabilities: self.capabilities@,
            authentication: self.authentication.deep_view(),
            endpoints: self.endpoints.deep_view(),
            version: self.version.deep_view(),
            documentation_url: self.documentation_url.deep_view(),
            scopes: self.scopes.deep_view(),
        }
    }
}

impl DeepView for AgentCard {
    type V = AgentCardView;

    open spec fn deep_view(&self) -> AgentCardView {
        self.view()
    }
}

impl AgentCard {
    /// A card with the given name, description and capabilities, and no
    /// endpoints yet.
    pub fn new(name: &str, description: &str, capabilities: AgentCapabilities) -> (r: Self)
        ensures
            r@ == (AgentCardView {
                id: None,
                organization_id: None,
                name: name@,
                description: description@,
                capabilities: capabilities@,
                authentication: None,
                endpoints: Seq::empty(),
                version: None,
                documentation_url: None,
                scopes: None,
            }),
    {
        let r = AgentCard {
            id: None,
            organization_id: None,
            name: name.to_owned(),
            description: description.to_owned(),
            capabilities,
            authentication: None,
            endpoints: Vec::new(),
            version: None,
            documentation_url: None,
            scopes: None,
        };
        proof {
            assert(r@.endpoints =~= Seq::<(Seq<char>, EndpointConfigView)>::empty());
        }
        r
    }

    /// The card with one more endpoint.
    pub fn with_endpoint(self, name: &str, config: EndpointConfig) -> (r: Self)
        ensures
            r@ == (AgentCardView {
                endpoints: self@.endpoints.push((name@, config@)),
                ..self@
            }),
            r@.endpoints.len() >= 1,
    {
        let mut endpoints = self.endpoints;
        let ghost ge = endpoints.deep_view();
        endpoints.push((name.to_owned(), config));
        proof {
            assert(endpoints.deep_view() =~= ge.push((name@, config@)));
        }
        AgentCard { endpoints, ..self }
    }

    /// The card with its accepted security schemes.
    pub fn with_authentication(self, schemes: Vec<SecurityScheme>) -> (r: Self)
        ensures
            r@ == (AgentCardView { authentication: Some(schemes.deep_view()), ..self@ }),
    {
        AgentCard { authentication: Some(schemes), ..self }
    }

    /// The card with a version.
    pub fn with_version(self, version: &str) -> (r: Self)
        ensures
            r@ == (AgentCardView { version: Some(version@), ..self@ }),
    {
        AgentCard { version: Some(version.to_owned()), ..self }
    }
}

} // verus!
