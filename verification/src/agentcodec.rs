//! The plain-JSON binding of agent cards and their capability and security
//! types.

use vstd::prelude::*;
use crate::json::{JsonValue, JsonView, spec_obj_get, spec_obj_has_key};
use crate::json::{json_views, json_member_views, lemma_json_views_index,
    lemma_json_member_views_index};
use crate::agent::{AgentCapabilities, AgentCapabilitiesView, AgentCard, AgentCardView,
    AgentScope, AgentScopeView, ApiKeySecurityScheme, ApiKeySecuritySchemeView,
    EndpointConfig, EndpointConfigView, HttpAuthSecurityScheme, HttpAuthSecuritySchemeView,
    OAuth2SecurityScheme, OAuth2SecuritySchemeView, OAuthFlow, OAuthFlowView, OAuthFlows,
    OAuthFlowsView, OpenIdConnectSecurityScheme, OpenIdConnectSecuritySchemeView,
    SecurityScheme, SecuritySchemeView};
use crate::codec::{spec_opt_str_member, spec_opt_str_field, spec_strs_to_json,
    spec_json_to_strs, strs_to_values, values_to_strs, get_opt_str_field};

verus! {

broadcast use vstd::std_specs::vec::group_vec_axioms, vstd::seq::group_seq_axioms;

// --- string maps ------------------------------------------------------------

/// A string-to-string map as object members.
pub open spec fn spec_strpairs_members(s: Seq<(Seq<char>, Seq<char>)>) -> Seq<(Seq<char>, JsonView)>
    decreases s.len(),
{
    if s.len() == 0 {
        Seq::empty()
    } else {
        seq![(s[0].0, JsonView::Str(s[0].1))] + spec_strpairs_members(s.drop_first())
    }
}

pub proof fn lemma_strpairs_members_index(s: Seq<(Seq<char>, Seq<char>)>)
    ensures
        spec_strpairs_members(s).len() == s.len(),
        forall|i: int| 0 <= i < s.len()
            ==> spec_strpairs_members(s)[i] == (s[i].0, JsonView::Str(s[i].1)),
    decreases s.len(),
{
    if s.len() > 0 {
        lemma_strpairs_members_index(s.drop_first());
    }
}

/// The string map that object members denote, when every value is a string.
pub open spec fn spec_json_to_strpairs(
    ms: Seq<(Seq<char>, JsonView)>,
) -> Option<Seq<(Seq<char>, Seq<char>)>>
    decreases ms.len(),
{
    if ms.len() == 0 {
        Some(Seq::empty())
    } else {
        match (ms[0].1, spec_json_to_strpairs(ms.drop_first())) {
            (JsonView::Str(v), Some(rest)) => Some(seq![(ms[0].0, v)] + rest),
            _ => None,
        }
    }
}

/// Encode a string-to-string map.
#[verifier::loop_isolation(false)]
pub fn strpairs_to_members(pairs: &Vec<(String, String)>) -> (r: Vec<(String, JsonValue)>)
    ensures
        json_member_views(r@) == spec_strpairs_members(pairs.deep_view()),
{
    let ghost gs = pairs.deep_view();
    let mut out: Vec<(String, JsonValue)> = Vec::new();
    let mut k: usize = 0;
    while k < pairs.len()
        invariant
            k <= pairs@.len(),
            gs.len() == pairs@.len(),
            forall|j: int| 0 <= j < gs.len() ==> gs[j] == (pairs@[j].0@, pairs@[j].1@),
            out@.len() == k,
            forall|j: int| 0 <= j < k
                ==> out@[j].0@ == gs[j].0 && out@[j].1@ == JsonView::Str(gs[j].1),
        decreases pairs@.len() - k,
    {
        out.push((pairs[k].0.clone(), JsonValue::Str(pairs[k].1.clone())));
        k += 1;
    }
    proof {
        lemma_json_member_views_index(out@);
        lemma_strpairs_members_index(gs);
        assert(json_member_views(out@) =~= spec_strpairs_members(gs));
    }
    out
}

proof fn lemma_json_to_strpairs_fail(ms: Seq<(Seq<char>, JsonView)>, i: int)
    requires
        0 <= i < ms.len(),
        !(ms[i].1 is Str),
    ensures
        spec_json_to_strpairs(ms) is None,
    decreases i,
{
    if i > 0 {
        lemma_json_to_strpairs_fail(ms.drop_first(), i - 1);
    }
}

proof fn lemma_json_to_strpairs_ok(ms: Seq<(Seq<char>, JsonView)>, out: Seq<(Seq<char>, Seq<char>)>)
    requires
        ms.len() == out.len(),
        forall|i: int| 0 <= i < ms.len()
            ==> out[i].0 == ms[i].0 && ms[i].1 == JsonView::Str(out[i].1),
    ensures
        spec_json_to_strpairs(ms) == Some(out),
    decreases ms.len(),
{
    if ms.len() == 0 {
        assert(out =~= Seq::<(Seq<char>, Seq<char>)>::empty());
    } else {
        lemma_json_to_strpairs_ok(ms.drop_first(), out.drop_first());
        assert(seq![(ms[0].0, out[0].1)] + out.drop_first() =~= out);
    }
}

/// A decoded string-to-string map.
pub type StrPairList = Vec<(String, String)>;

/// Decode a string-to-string map.
#[verifier::loop_isolation(false)]
pub fn members_to_strpairs(ms: &Vec<(String, JsonValue)>) -> (r: Option<StrPairList>)
    ensures
        (match r {
            Some(pairs) => spec_json_to_strpairs(json_member_views(ms@))
                == Some(pairs.deep_view()),
            None => spec_json_to_strpairs(json_member_views(ms@)) is None,
        }),
{
    proof {
        lemma_json_member_views_index(ms@);
    }
    let ghost gs = json_member_views(ms@);
    let mut out: Vec<(String, String)> = Vec::new();
    let mut k: usize = 0;
    while k < ms.len()
        invariant
            k <= ms@.len(),
            out@.len() == k,
            forall|j: int| 0 <= j < k
                ==> out@[j].0@ == gs[j].0 && gs[j].1 == JsonView::Str(out@[j].1@),
        decreases ms@.len() - k,
    {
        match &ms[k].1 {
            JsonValue::Str(v) => {
                out.push((ms[k].0.clone(), v.clone()));
            },
            _ => {
                proof {
                    lemma_json_to_strpairs_fail(gs, k as int);
                }
                return None;
            },
        }
        k += 1;
    }
    proof {
        lemma_json_to_strpairs_ok(gs, out.deep_view());
    }
    Some(out)
}

// --- OAuth flows ------------------------------------------------------------

/// The members of an OAuth flow object.
pub open spec fn spec_flow_members(f: OAuthFlowView) -> Seq<(Seq<char>, JsonView)> {
    spec_opt_str_member("authorizationUrl"@, f.authorization_url)
        + spec_opt_str_member("tokenUrl"@, f.token_url)
        + spec_opt_str_member("refreshUrl"@, f.refresh_url)
        + seq![("scopes"@, JsonView::Obj(spec_strpairs_members(f.scopes)))]
}

/// An OAuth flow as a JSON document.
pub open spec fn spec_flow_to_json(f: OAuthFlowView) -> JsonView {
    JsonView::Obj(spec_flow_members(f))
}

/// The OAuth flow a JSON document denotes.
pub open spec fn spec_json_to_flow(v: JsonView) -> Option<OAuthFlowView> {
    match v {
        JsonView::Obj(ms) => {
            if spec_obj_has_key(ms, "scopes"@) {
                match (spec_obj_get(ms, "scopes"@), spec_opt_str_field(ms, "authorizationUrl"@),
                    spec_opt_str_field(ms, "tokenUrl"@), spec_opt_str_field(ms, "refreshUrl"@)) {
                    (JsonView::Obj(sm), Some(authorization_url), Some(token_url),
                        Some(refresh_url)) => match spec_json_to_strpairs(sm) {
                        Some(scopes) => Some(OAuthFlowView {
                            authorization_url,
                            token_url,
                            refresh_url,
                            scopes,
                        }),
                        None => None,
                    },
                    _ => None,
                }
            } else {
                None
            }
        },
        _ => None,
    }
}

/// Encode an OAuth flow.
pub fn flow_to_value(f: &OAuthFlow) -> (r: JsonValue)
    ensures
        r@ == spec_flow_to_json(f@),
{
    let mut ms: Vec<(String, JsonValue)> = Vec::new();
    match &f.authorization_url {
        Some(u) => {
            ms.push((String::from_str("authorizationUrl"), JsonValue::Str(u.clone())));
        },
        None => {},
    }
    match &f.token_url {
        Some(u) => {
            ms.push((String::from_str("tokenUrl"), JsonValue::Str(u.clone())));
        },
        None => {},
    }
    match &f.refresh_url {
        Some(u) => {
            ms.push((String::from_str("refreshUrl"), JsonValue::Str(u.clone())));
        },
        None => {},
    }
    ms.push((String::from_str("scopes"), JsonValue::Obj(strpairs_to_members(&f.scopes))));
    let r = JsonValue::Obj(ms);
    proof {
        lemma_json_member_views_index(r->Obj_0@);
        assert(r@->Obj_0 =~= spec_flow_members(f@));
    }
    r
}

/// Decode an OAuth flow.
pub fn value_to_flow(v: &JsonValue) -> (r: Option<OAuthFlow>)
    ensures
        (match r {
            Some(f) => spec_json_to_flow(v@) == Some(f@),
            None => spec_json_to_flow(v@) is None,
        }),
{
    let is_obj = match v {
        JsonValue::Obj(_) => true,
        _ => false,
    };
    if !is_obj {
        return None;
    }
    let scopes = match v.get("scopes") {
        Some(field) => match field {
            JsonValue::Obj(sm) => match members_to_strpairs(sm) {
                Some(pairs) => pairs,
                None => {
                    return None;
                },
            },
            _ => {
                return None;
            },
        },
        None => {
            return None;
        },
    };
    let authorization_url = match get_opt_str_field(v, "authorizationUrl") {
        Some(opt) => opt,
        None => {
            return None;
        },
    };
    let token_url = match get_opt_str_field(v, "tokenUrl") {
        Some(opt) => opt,
        None => {
            return None;
        },
    };
    let refresh_url = match get_opt_str_field(v, "refreshUrl") {
        Some(opt) => opt,
        None => {
            return None;
        },
    };
    Some(OAuthFlow { authorization_url, token_url, refresh_url, scopes })
}

/// An optional OAuth-flow field of an object.
pub open spec fn spec_opt_flow_field(
    ms: Seq<(Seq<char>, JsonView)>,
    key: Seq<char>,
) -> Option<Option<OAuthFlowView>> {
    if spec_obj_has_key(ms, key) {
        match spec_json_to_flow(spec_obj_get(ms, key)) {
            Some(f) => Some(Some(f)),
            None => None,
        }
    } else {
        Some(None)
    }
}

fn get_opt_flow_field(v: &JsonValue, key: &str) -> (r: Option<Option<OAuthFlow>>)
    requires
        v@ is Obj,
    ensures
        (match r {
            Some(opt) => spec_opt_flow_field(v@->Obj_0, key@) == Some(opt.deep_view()),
            None => spec_opt_flow_field(v@->Obj_0, key@) is None,
        }),
{
    match v.get(key) {
        Some(field) => match value_to_flow(field) {
            Some(f) => Some(Some(f)),
            None => None,
        },
        None => Some(None),
    }
}

/// Zero or one members: an optional flow field.
pub open spec fn spec_opt_flow_member(
    key: Seq<char>,
    o: Option<OAuthFlowView>,
) -> Seq<(Seq<char>, JsonView)> {
    match o {
        Some(f) => seq![(key, spec_flow_to_json(f))],
        None => Seq::empty(),
    }
}

/// The members of an OAuth-flows object.
pub open spec fn spec_flows_members(f: OAuthFlowsView) -> Seq<(Seq<char>, JsonView)> {
    spec_opt_flow_member("authorizationCode"@, f.authorization_code)
        + spec_opt_flow_member("clientCredentials"@, f.client_credentials)
        + spec_opt_flow_member("implicit"@, f.implicit)
        + spec_opt_flow_member("password"@, f.password)
}

/// An OAuth-flows set as a JSON document.
pub open spec fn spec_flows_to_json(f: OAuthFlowsView) -> JsonView {
    JsonView::Obj(spec_flows_members(f))
}

/// The OAuth-flows set a JSON document denotes.
pub open spec fn spec_json_to_flows(v: JsonView) -> Option<OAuthFlowsView> {
    match v {
        JsonView::Obj(ms) => {
            match (spec_opt_flow_field(ms, "authorizationCode"@),
                spec_opt_flow_field(ms, "clientCredentials"@),
                spec_opt_flow_field(ms, "implicit"@), spec_opt_flow_field(ms, "password"@)) {
                (Some(authorization_code), Some(client_credentials), Some(implicit),
                    Some(password)) => Some(OAuthFlowsView {
                    authorization_code,
                    client_credentials,
                    implicit,
                    password,
                }),
                _ => None,
            }
        },
        _ => None,
    }
}

/// Encode an OAuth-flows set.
pub fn flows_to_value(f: &OAuthFlows) -> (r: JsonValue)
    ensures
        r@ == spec_flows_to_json(f@),
{
    let mut ms: Vec<(String, JsonValue)> = Vec::new();
    match &f.authorization_code {
        Some(flow) => {
            ms.push((String::from_str("authorizationCode"), flow_to_value(flow)));
        },
        None => {},
    }
    match &f.client_credentials {
        Some(flow) => {
            ms.push((String::from_str("clientCredentials"), flow_to_value(flow)));
        },
        None => {},
    }
    match &f.implicit {
        Some(flow) => {
            ms.push((String::from_str("implicit"), flow_to_value(flow)));
        },
        None => {},
    }
    match &f.password {
        Some(flow) => {
            ms.push((String::from_str("password"), flow_to_value(flow)));
        },
        None => {},
    }
    let r = JsonValue::Obj(ms);
    proof {
        lemma_json_member_views_index(r->Obj_0@);
        assert(r@->Obj_0 =~= spec_flows_members(f@));
    }
    r
}

/// Decode an OAuth-flows set.
pub fn value_to_flows(v: &JsonValue) -> (r: Option<OAuthFlows>)
    ensures
        (match r {
            Some(f) => spec_json_to_flows(v@) == Some(f@),
            None => spec_json_to_flows(v@) is None,
        }),
{
    let is_obj = match v {
        JsonValue::Obj(_) => true,
        _ => false,
    };
    if !is_obj {
        return None;
    }
    let authorization_code = match get_opt_flow_field(v, "authorizationCode") {
        Some(opt) => opt,
        None => {
            return None;
        },
    };
    let client_credentials = match get_opt_flow_field(v, "clientCredentials") {
        Some(opt) => opt,
        None => {
            return None;
        },
    };
    let implicit = match get_opt_flow_field(v, "implicit") {
        Some(opt) => opt,
        None => {
            return None;
        },
    };
    let password = match get_opt_flow_field(v, "password") {
        Some(opt) => opt,
        None => {
            return None;
        },
    };
    Some(OAuthFlows { authorization_code, client_credentials, implicit, password })
}

// --- security schemes -------------------------------------------------------

/// A security scheme as a JSON document: one member whose key names the
/// scheme kind.
pub open spec fn spec_scheme_to_json(s: SecuritySchemeView) -> JsonView {
    match s {
        SecuritySchemeView::ApiKey(k) => JsonView::Obj(
            seq![("apiKeySecurityScheme"@, JsonView::Obj(
                spec_opt_str_member("description"@, k.description)
                    + seq![("in"@, JsonView::Str(k.location))]
                    + seq![("name"@, JsonView::Str(k.name))],
            ))],
        ),
        SecuritySchemeView::HttpAuth(h) => JsonView::Obj(
            seq![("httpAuthSecurityScheme"@, JsonView::Obj(
                spec_opt_str_member("description"@, h.description)
                    + seq![("scheme"@, JsonView::Str(h.scheme))]
                    + spec_opt_str_member("bearerFormat"@, h.bearer_format),
            ))],
        ),
        SecuritySchemeView::OAuth2(o) => JsonView::Obj(
            seq![("oauth2SecurityScheme"@, JsonView::Obj(
                spec_opt_str_member("description"@, o.description)
                    + seq![("flows"@, spec_flows_to_json(o.flows))]
                    + spec_opt_str_member("oauth2MetadataUrl"@, o.oauth2_metadata_url),
            ))],
        ),
        SecuritySchemeView::OpenIdConnect(o) => JsonView::Obj(
            seq![("openIdConnectSecurityScheme"@, JsonView::Obj(
                spec_opt_str_member("description"@, o.description)
                    + seq![("openIdConnectUrl"@, JsonView::Str(o.open_id_connect_url))],
            ))],
        ),
    }
}

/// The API key scheme an inner JSON document denotes.
pub open spec fn spec_json_to_api_key(v: JsonView) -> Option<ApiKeySecuritySchemeView> {
    match v {
        JsonView::Obj(ms) => {
            if spec_obj_has_key(ms, "in"@) && spec_obj_has_key(ms, "name"@) {
                match (spec_obj_get(ms, "in"@), spec_obj_get(ms, "name"@),
                    spec_opt_str_field(ms, "description"@)) {
                    (JsonView::Str(location), JsonView::Str(name), Some(description)) => Some(
                        ApiKeySecuritySchemeView { description, location, name },
                    ),
                    _ => None,
                }
            } else {
                None
            }
        },
        _ => None,
    }
}

/// The HTTP auth scheme an inner JSON document denotes.
pub open spec fn spec_json_to_http_auth(v: JsonView) -> Option<HttpAuthSecuritySchemeView> {
    match v {
        JsonView::Obj(ms) => {
            if spec_obj_has_key(ms, "scheme"@) {
                match (spec_obj_get(ms, "scheme"@), spec_opt_str_field(ms, "description"@),
                    spec_opt_str_field(ms, "bearerFormat"@)) {
                    (JsonView::Str(scheme), Some(description), Some(bearer_format)) => Some(
                        HttpAuthSecuritySchemeView { description, scheme, bearer_format },
                    ),
                    _ => None,
                }
            } else {
                None
            }
        },
        _ => None,
    }
}

/// The OAuth2 scheme an inner JSON document denotes.
pub open spec fn spec_json_to_oauth2(v: JsonView) -> Option<OAuth2SecuritySchemeView> {
    match v {
        JsonView::Obj(ms) => {
            if spec_obj_has_key(ms, "flows"@) {
                match (spec_json_to_flows(spec_obj_get(ms, "flows"@)),
                    spec_opt_str_field(ms, "description"@),
                    spec_opt_str_field(ms, "oauth2MetadataUrl"@)) {
                    (Some(flows), Some(description), Some(oauth2_metadata_url)) => Some(
                        OAuth2SecuritySchemeView { description, flows, oauth2_metadata_url },
                    ),
                    _ => None,
                }
            } else {
                None
            }
        },
        _ => None,
    }
}

/// The OpenID Connect scheme an inner JSON document denotes.
pub open spec fn spec_json_to_oidc(v: JsonView) -> Option<OpenIdConnectSecuritySchemeView> {
    match v {
        JsonView::Obj(ms) => {
            if spec_obj_has_key(ms, "openIdConnectUrl"@) {
                match (spec_obj_get(ms, "openIdConnectUrl"@),
                    spec_opt_str_field(ms, "description"@)) {
                    (JsonView::Str(open_id_connect_url), Some(description)) => Some(
                        OpenIdConnectSecuritySchemeView { description, open_id_connect_url },
                    ),
                    _ => None,
                }
            } else {
                None
            }
        },
        _ => None,
    }
}

/// The security scheme a JSON document denotes.
pub open spec fn spec_json_to_scheme(v: JsonView) -> Option<SecuritySchemeView> {
    match v {
        JsonView::Obj(ms) => {
            if spec_obj_has_key(ms, "apiKeySecurityScheme"@) {
                match spec_json_to_api_key(spec_obj_get(ms, "apiKeySecurityScheme"@)) {
                    Some(k) => Some(SecuritySchemeView::ApiKey(k)),
                    None => None,
                }
            } else if spec_obj_has_key(ms, "httpAuthSecurityScheme"@) {
                match spec_json_to_http_auth(spec_obj_get(ms, "httpAuthSecurityScheme"@)) {
                    Some(h) => Some(SecuritySchemeView::HttpAuth(h)),
                    None => None,
                }
            } else if spec_obj_has_key(ms, "oauth2SecurityScheme"@) {
                match spec_json_to_oauth2(spec_obj_get(ms, "oauth2SecurityScheme"@)) {
                    Some(o) => Some(SecuritySchemeView::OAuth2(o)),
                    None => None,
                }
            } else if spec_obj_has_key(ms, "openIdConnectSecurityScheme"@) {
                match spec_json_to_oidc(spec_obj_get(ms, "openIdConnectSecurityScheme"@)) {
                    Some(o) => Some(SecuritySchemeView::OpenIdConnect(o)),
                    None => None,
                }
            } else {
                None
            }
        },
        _ => None,
    }
}

/// Encode a security scheme.
#[verifier::rlimit(30)]
pub fn scheme_to_value(s: &SecurityScheme) -> (r: JsonValue)
    ensures
        r@ == spec_scheme_to_json(s@),
{
    let r = match s {
        SecurityScheme::ApiKey(k) => {
            let mut inner: Vec<(String, JsonValue)> = Vec::new();
            match &k.description {
                Some(d) => {
                    inner.push((String::from_str("description"), JsonValue::Str(d.clone())));
                },
                None => {},
            }
            inner.push((String::from_str("in"), JsonValue::Str(k.location.clone())));
            inner.push((String::from_str("name"), JsonValue::Str(k.name.clone())));
            let inner_val = JsonValue::Obj(inner);
            proof {
                lemma_json_member_views_index(inner_val->Obj_0@);
                assert(inner_val@->Obj_0 =~= spec_scheme_to_json(s@)->Obj_0[0].1->Obj_0);
            }
            let mut ms: Vec<(String, JsonValue)> = Vec::new();
            ms.push((String::from_str("apiKeySecurityScheme"), inner_val));
            JsonValue::Obj(ms)
        },
        SecurityScheme::HttpAuth(h) => {
            let mut inner: Vec<(String, JsonValue)> = Vec::new();
            match &h.description {
                Some(d) => {
                    inner.push((String::from_str("description"), JsonValue::Str(d.clone())));
                },
                None => {},
            }
            inner.push((String::from_str("scheme"), JsonValue::Str(h.scheme.clone())));
            match &h.bearer_format {
                Some(b) => {
                    inner.push((String::from_str("bearerFormat"), JsonValue::Str(b.clone())));
                },
                None => {},
            }
            let inner_val = JsonValue::Obj(inner);
            proof {
                lemma_json_member_views_index(inner_val->Obj_0@);
                assert(inner_val@->Obj_0 =~= spec_scheme_to_json(s@)->Obj_0[0].1->Obj_0);
            }
            let mut ms: Vec<(String, JsonValue)> = Vec::new();
            ms.push((String::from_str("httpAuthSecurityScheme"), inner_val));
            JsonValue::Obj(ms)
        },
        SecurityScheme::OAuth2(o) => {
            let mut inner: Vec<(String, JsonValue)> = Vec::new();
            match &o.description {
                Some(d) => {
                    inner.push((String::from_str("description"), JsonValue::Str(d.clone())));
                },
                None => {},
            }
            inner.push((String::from_str("flows"), flows_to_value(&o.flows)));
            match &o.oauth2_metadata_url {
                Some(u) => {
                    inner.push((String::from_str("oauth2MetadataUrl"), JsonValue::Str(u.clone())));
                },
                None => {},
            }
            let inner_val = JsonValue::Obj(inner);
            proof {
                lemma_json_member_views_index(inner_val->Obj_0@);
                assert(inner_val@->Obj_0 =~= spec_scheme_to_json(s@)->Obj_0[0].1->Obj_0);
            }
            let mut ms: Vec<(String, JsonValue)> = Vec::new();
            ms.push((String::from_str("oauth2SecurityScheme"), inner_val));
            JsonValue::Obj(ms)
        },
        SecurityScheme::OpenIdConnect(o) => {
            let mut inner: Vec<(String, JsonValue)> = Vec::new();
            match &o.description {
                Some(d) => {
                    inner.push((String::from_str("description"), JsonValue::Str(d.clone())));
                },
                None => {},
            }
            inner.push((String::from_str("openIdConnectUrl"),
                JsonValue::Str(o.open_id_connect_url.clone())));
            let inner_val = JsonValue::Obj(inner);
            proof {
                lemma_json_member_views_index(inner_val->Obj_0@);
                assert(inner_val@->Obj_0 =~= spec_scheme_to_json(s@)->Obj_0[0].1->Obj_0);
            }
            let mut ms: Vec<(String, JsonValue)> = Vec::new();
            ms.push((String::from_str("openIdConnectSecurityScheme"), inner_val));
            JsonValue::Obj(ms)
        },
    };
    proof {
        lemma_json_member_views_index(r->Obj_0@);
        assert(r@->Obj_0 =~= spec_scheme_to_json(s@)->Obj_0);
    }
    r
}

/// Decode an API key scheme body.
fn value_to_api_key(v: &JsonValue) -> (r: Option<ApiKeySecurityScheme>)
    ensures
        (match r {
            Some(k) => spec_json_to_api_key(v@) == Some(k@),
            None => spec_json_to_api_key(v@) is None,
        }),
{
    let is_obj = match v {
        JsonValue::Obj(_) => true,
        _ => false,
    };
    if !is_obj {
        return None;
    }
    let location = match v.get("in") {
        Some(field) => match field.as_str() {
            Some(s) => s.clone(),
            None => {
                return None;
            },
        },
        None => {
            return None;
        },
    };
    let name = match v.get("name") {
        Some(field) => match field.as_str() {
            Some(s) => s.clone(),
            None => {
                return None;
            },
        },
        None => {
            return None;
        },
    };
    let description = match get_opt_str_field(v, "description") {
        Some(opt) => opt,
        None => {
            return None;
        },
    };
    Some(ApiKeySecurityScheme { description, location, name })
}

/// Decode an HTTP auth scheme body.
fn value_to_http_auth(v: &JsonValue) -> (r: Option<HttpAuthSecurityScheme>)
    ensures
        (match r {
            Some(h) => spec_json_to_http_auth(v@) == Some(h@),
            None => spec_json_to_http_auth(v@) is None,
        }),
{
    let is_obj = match v {
        JsonValue::Obj(_) => true,
        _ => false,
    };
    if !is_obj {
        return None;
    }
    let scheme = match v.get("scheme") {
        Some(field) => match field.as_str() {
            Some(s) => s.clone(),
            None => {
                return None;
            },
        },
        None => {
            return None;
        },
    };
    let description = match get_opt_str_field(v, "description") {
        Some(opt) => opt,
        None => {
            return None;
        },
    };
    let bearer_format = match get_opt_str_field(v, "bearerFormat") {
        Some(opt) => opt,
        None => {
            return None;
        },
    };
    Some(HttpAuthSecurityScheme { description, scheme, bearer_format })
}

/// Decode an OAuth2 scheme body.
fn value_to_oauth2(v: &JsonValue) -> (r: Option<OAuth2SecurityScheme>)
    ensures
        (match r {
            Some(o) => spec_json_to_oauth2(v@) == Some(o@),
            None => spec_json_to_oauth2(v@) is None,
        }),
{
    let is_obj = match v {
        JsonValue::Obj(_) => true,
        _ => false,
    };
    if !is_obj {
        return None;
    }
    let flows = match v.get("flows") {
        Some(field) => match value_to_flows(field) {
            Some(f) => f,
            None => {
                return None;
            },
        },
        None => {
            return None;
        },
    };
    let description = match get_opt_str_field(v, "description") {
        Some(opt) => opt,
        None => {
            return None;
        },
    };
    let oauth2_metadata_url = match get_opt_str_field(v, "oauth2MetadataUrl") {
        Some(opt) => opt,
        None => {
            return None;
        },
    };
    Some(OAuth2SecurityScheme { description, flows, oauth2_metadata_url })
}

/// Decode an OpenID Connect scheme body.
fn value_to_oidc(v: &JsonValue) -> (r: Option<OpenIdConnectSecurityScheme>)
    ensures
        (match r {
            Some(o) => spec_json_to_oidc(v@) == Some(o@),
            None => spec_json_to_oidc(v@) is None,
        }),
{
    let is_obj = match v {
        JsonValue::Obj(_) => true,
        _ => false,
    };
    if !is_obj {
        return None;
    }
    let open_id_connect_url = match v.get("openIdConnectUrl") {
        Some(field) => match field.as_str() {
            Some(s) => s.clone(),
            None => {
                return None;
            },
        },
        None => {
            return None;
        },
    };
    let description = match get_opt_str_field(v, "description") {
        Some(opt) => opt,
        None => {
            return None;
        },
    };
    Some(OpenIdConnectSecurityScheme { description, open_id_connect_url })
}

/// Decode a security scheme.
pub fn value_to_scheme(v: &JsonValue) -> (r: Option<SecurityScheme>)
    ensures
        (match r {
            Some(s) => spec_json_to_scheme(v@) == Some(s@),
            None => spec_json_to_scheme(v@) is None,
        }),
{
    let is_obj = match v {
        JsonValue::Obj(_) => true,
        _ => false,
    };
    if !is_obj {
        return None;
    }
    match v.get("apiKeySecurityScheme") {
        Some(field) => {
            return match value_to_api_key(field) {
                Some(k) => Some(SecurityScheme::ApiKey(k)),
                None => None,
            };
        },
        None => {},
    }
    match v.get("httpAuthSecurityScheme") {
        Some(field) => {
            return match value_to_http_auth(field) {
                Some(h) => Some(SecurityScheme::HttpAuth(h)),
                None => None,
            };
        },
        None => {},
    }
    match v.get("oauth2SecurityScheme") {
        Some(field) => {
            return match value_to_oauth2(field) {
                Some(o) => Some(SecurityScheme::OAuth2(Box::new(o))),
                None => None,
            };
        },
        None => {},
    }
    match v.get("openIdConnectSecurityScheme") {
        Some(field) => {
            return match value_to_oidc(field) {
                Some(o) => Some(SecurityScheme::OpenIdConnect(o)),
                None => None,
            };
        },
        None => {},
    }
    None
}

// --- capabilities -----------------------------------------------------------

/// The members of a capabilities object: the four flags, then the optional
/// part-type list.
pub open spec fn spec_caps_members(c: AgentCapabilitiesView) -> Seq<(Seq<char>, JsonView)> {
    seq![("streaming"@, JsonView::Bool(c.streaming))]
        + seq![("pushNotifications"@, JsonView::Bool(c.push_notifications))]
        + seq![("taskManagement"@, JsonView::Bool(c.task_management))]
        + seq![("multiTurn"@, JsonView::Bool(c.multi_turn))]
        + (match c.supported_part_types {
            Some(ts) => seq![("supportedPartTypes"@, JsonView::Arr(spec_strs_to_json(ts)))],
            None => Seq::empty(),
        })
}

/// A capabilities set as a JSON document.
pub open spec fn spec_caps_to_json(c: AgentCapabilitiesView) -> JsonView {
    JsonView::Obj(spec_caps_members(c))
}

/// A flag field: absent means off, present must be a boolean.
pub open spec fn spec_flag_field(ms: Seq<(Seq<char>, JsonView)>, key: Seq<char>) -> Option<bool> {
    if spec_obj_has_key(ms, key) {
        match spec_obj_get(ms, key) {
            JsonView::Bool(b) => Some(b),
            _ => None,
        }
    } else {
        Some(false)
    }
}

/// The capabilities set a JSON document denotes.
pub open spec fn spec_json_to_caps(v: JsonView) -> Option<AgentCapabilitiesView> {
    match v {
        JsonView::Obj(ms) => {
            match (spec_flag_field(ms, "streaming"@), spec_flag_field(ms, "pushNotifications"@),
                spec_flag_field(ms, "taskManagement"@), spec_flag_field(ms, "multiTurn"@)) {
                (Some(streaming), Some(push_notifications), Some(task_management),
                    Some(multi_turn)) => {
                    if spec_obj_has_key(ms, "supportedPartTypes"@) {
                        match spec_obj_get(ms, "supportedPartTypes"@) {
                            JsonView::Arr(items) => match spec_json_to_strs(items) {
                                Some(ts) => Some(AgentCapabilitiesView {
                                    streaming,
                                    push_notifications,
                                    task_management,
                                    multi_turn,
                                    supported_part_types: Some(ts),
                                }),
                                None => None,
                            },
                            _ => None,
                        }
                    } else {
                        Some(AgentCapabilitiesView {
                            streaming,
                            push_notifications,
                            task_management,
                            multi_turn,
                            supported_part_types: None,
                        })
                    }
                },
                _ => None,
            }
        },
        _ => None,
    }
}

fn get_flag_field(v: &JsonValue, key: &str) -> (r: Option<bool>)
    requires
        v@ is Obj,
    ensures
        r == spec_flag_field(v@->Obj_0, key@),
{
    match v.get(key) {
        Some(field) => match field.as_bool() {
            Some(b) => Some(b),
            None => None,
        },
        None => Some(false),
    }
}

/// Encode a capabilities set.
pub fn caps_to_value(c: &AgentCapabilities) -> (r: JsonValue)
    ensures
        r@ == spec_caps_to_json(c@),
{
    let mut ms: Vec<(String, JsonValue)> = Vec::new();
    ms.push((String::from_str("streaming"), JsonValue::Bool(c.streaming)));
    ms.push((String::from_str("pushNotifications"), JsonValue::Bool(c.push_notifications)));
    ms.push((String::from_str("taskManagement"), JsonValue::Bool(c.task_management)));
    ms.push((String::from_str("multiTurn"), JsonValue::Bool(c.multi_turn)));
    match &c.supported_part_types {
        Some(ts) => {
            ms.push((String::from_str("supportedPartTypes"),
                JsonValue::Arr(strs_to_values(ts))));
        },
        None => {},
    }
    let r = JsonValue::Obj(ms);
    proof {
        lemma_json_member_views_index(r->Obj_0@);
        assert(r@->Obj_0 =~= spec_caps_members(c@));
    }
    r
}

/// Decode a capabilities set.
pub fn value_to_caps(v: &JsonValue) -> (r: Option<AgentCapabilities>)
    ensures
        (match r {
            Some(c) => spec_json_to_caps(v@) == Some(c@),
            None => spec_json_to_caps(v@) is None,
        }),
{
    let is_obj = match v {
        JsonValue::Obj(_) => true,
        _ => false,
    };
    if !is_obj {
        return None;
    }
    let streaming = match get_flag_field(v, "streaming") {
        Some(b) => b,
        None => {
            return None;
        },
    };
    let push_notifications = match get_flag_field(v, "pushNotifications") {
        Some(b) => b,
        None => {
            return None;
        },
    };
    let task_management = match get_flag_field(v, "taskManagement") {
        Some(b) => b,
        None => {
            return None;
        },
    };
    let multi_turn = match get_flag_field(v, "multiTurn") {
        Some(b) => b,
        None => {
            return None;
        },
    };
    let supported_part_types = match v.get("supportedPartTypes") {
        Some(field) => match field {
            JsonValue::Arr(items) => match values_to_strs(items) {
                Some(ts) => Some(ts),
                None => {
                    return None;
                },
            },
            _ => {
                return None;
            },
        },
        None => None,
    };
    Some(AgentCapabilities {
        streaming,
        push_notifications,
        task_management,
        multi_turn,
        supported_part_types,
    })
}

// --- endpoints --------------------------------------------------------------

/// The members of an endpoint-configuration object.
pub open spec fn spec_endpoint_cfg_members(e: EndpointConfigView) -> Seq<(Seq<char>, JsonView)> {
    seq![("url"@, JsonView::Str(e.url))] + seq![("type"@, JsonView::Str(e.endpoint_type))]
        + seq![("preferred"@, JsonView::Bool(e.preferred))]
}

/// An endpoint configuration as a JSON document.
pub open spec fn spec_endpoint_cfg_to_json(e: EndpointConfigView) -> JsonView {
    JsonView::Obj(spec_endpoint_cfg_members(e))
}

/// The endpoint configuration a JSON document denotes.
pub open spec fn spec_json_to_endpoint_cfg(v: JsonView) -> Option<EndpointConfigView> {
    match v {
        JsonView::Obj(ms) => {
            if spec_obj_has_key(ms, "url"@) && spec_obj_has_key(ms, "type"@) {
                match (spec_obj_get(ms, "url"@), spec_obj_get(ms, "type"@),
                    spec_flag_field(ms, "preferred"@)) {
                    (JsonView::Str(url), JsonView::Str(endpoint_type), Some(preferred)) => Some(
                        EndpointConfigView { url, endpoint_type, preferred },
                    ),
                    _ => None,
                }
            } else {
                None
            }
        },
        _ => None,
    }
}

/// Encode an endpoint configuration.
pub fn endpoint_cfg_to_value(e: &EndpointConfig) -> (r: JsonValue)
    ensures
        r@ == spec_endpoint_cfg_to_json(e@),
{
    let mut ms: Vec<(String, JsonValue)> = Vec::new();
    ms.push((String::from_str("url"), JsonValue::Str(e.url.clone())));
    ms.push((String::from_str("type"), JsonValue::Str(e.endpoint_type.clone())));
    ms.push((String::from_str("preferred"), JsonValue::Bool(e.preferred)));
    let r = JsonValue::Obj(ms);
    proof {
        lemma_json_member_views_index(r->Obj_0@);
        assert(r@->Obj_0 =~= spec_endpoint_cfg_members(e@));
    }
    r
}

/// Decode an endpoint configuration.
pub fn value_to_endpoint_cfg(v: &JsonValue) -> (r: Option<EndpointConfig>)
    ensures
        (match r {
            Some(e) => spec_json_to_endpoint_cfg(v@) == Some(e@),
            None => spec_json_to_endpoint_cfg(v@) is None,
        }),
{
    let is_obj = match v {
        JsonValue::Obj(_) => true,
        _ => false,
    };
    if !is_obj {
        return None;
    }
    let url = match v.get("url") {
        Some(field) => match field.as_str() {
            Some(s) => s.clone(),
            None => {
                return None;
            },
        },
        None => {
            return None;
        },
    };
    let endpoint_type = match v.get("type") {
        Some(field) => match field.as_str() {
            Some(s) => s.clone(),
            None => {
                return None;
            },
        },
        None => {
            return None;
        },
    };
    let preferred = match get_flag_field(v, "preferred") {
        Some(b) => b,
        None => {
            return None;
        },
    };
    Some(EndpointConfig { url, endpoint_type, preferred })
}

/// The endpoint map as object members, one per binding.
pub open spec fn spec_endpoints_members(
    eps: Seq<(Seq<char>, EndpointConfigView)>,
) -> Seq<(Seq<char>, JsonView)>
    decreases eps.len(),
{
    if eps.len() == 0 {
        Seq::empty()
    } else {
        seq![(eps[0].0, spec_endpoint_cfg_to_json(eps[0].1))]
            + spec_endpoints_members(eps.drop_first())
    }
}

pub proof fn lemma_endpoints_members_index(eps: Seq<(Seq<char>, EndpointConfigView)>)
    ensures
        spec_endpoints_members(eps).len() == eps.len(),
        forall|i: int| 0 <= i < eps.len()
            ==> spec_endpoints_members(eps)[i] == (eps[i].0, spec_endpoint_cfg_to_json(eps[i].1)),
    decreases eps.len(),
{
    if eps.len() > 0 {
        lemma_endpoints_members_index(eps.drop_first());
    }
}

/// The endpoint map that object members denote.
pub open spec fn spec_json_to_endpoints(
    ms: Seq<(Seq<char>, JsonView)>,
) -> Option<Seq<(Seq<char>, EndpointConfigView)>>
    decreases ms.len(),
{
    if ms.len() == 0 {
        Some(Seq::empty())
    } else {
        match (spec_json_to_endpoint_cfg(ms[0].1), spec_json_to_endpoints(ms.drop_first())) {
            (Some(e), Some(rest)) => Some(seq![(ms[0].0, e)] + rest),
            _ => None,
        }
    }
}

/// Encode the endpoint map.
#[verifier::loop_isolation(false)]
pub fn endpoints_to_members(eps: &Vec<(String, EndpointConfig)>) -> (r: Vec<(String, JsonValue)>)
    ensures
        json_member_views(r@) == spec_endpoints_members(eps.deep_view()),
{
    let ghost gs = eps.deep_view();
    let mut out: Vec<(String, JsonValue)> = Vec::new();
    let mut k: usize = 0;
    while k < eps.len()
        invariant
            k <= eps@.len(),
            gs.len() == eps@.len(),
            forall|j: int| 0 <= j < gs.len() ==> gs[j] == (eps@[j].0@, eps@[j].1@),
            out@.len() == k,
            forall|j: int| 0 <= j < k
                ==> out@[j].0@ == gs[j].0 && out@[j].1@ == spec_endpoint_cfg_to_json(gs[j].1),
        decreases eps@.len() - k,
    {
        out.push((eps[k].0.clone(), endpoint_cfg_to_value(&eps[k].1)));
        k += 1;
    }
    proof {
        lemma_json_member_views_index(out@);
        lemma_endpoints_members_index(gs);
        assert(json_member_views(out@) =~= spec_endpoints_members(gs));
    }
    out
}

proof fn lemma_json_to_endpoints_fail(ms: Seq<(Seq<char>, JsonView)>, i: int)
    requires
        0 <= i < ms.len(),
        spec_json_to_endpoint_cfg(ms[i].1) is None,
    ensures
        spec_json_to_endpoints(ms) is None,
    decreases i,
{
    if i > 0 {
        lemma_json_to_endpoints_fail(ms.drop_first(), i - 1);
    }
}

proof fn lemma_json_to_endpoints_ok(
    ms: Seq<(Seq<char>, JsonView)>,
    out: Seq<(Seq<char>, EndpointConfigView)>,
)
    requires
        ms.len() == out.len(),
        forall|i: int| 0 <= i < ms.len()
            ==> out[i].0 == ms[i].0 && spec_json_to_endpoint_cfg(ms[i].1) == Some(out[i].1),
    ensures
        spec_json_to_endpoints(ms) == Some(out),
    decreases ms.len(),
{
    if ms.len() == 0 {
        assert(out =~= Seq::<(Seq<char>, EndpointConfigView)>::empty());
    } else {
        lemma_json_to_endpoints_ok(ms.drop_first(), out.drop_first());
        assert(seq![(ms[0].0, out[0].1)] + out.drop_first() =~= out);
    }
}

/// A decoded endpoint map.
pub type EndpointList = Vec<(String, EndpointConfig)>;

/// Decode the endpoint map.
#[verifier::loop_isolation(false)]
pub fn members_to_endpoints(ms: &Vec<(String, JsonValue)>) -> (r: Option<EndpointList>)
    ensures
        (match r {
            Some(eps) => spec_json_to_endpoints(json_member_views(ms@))
                == Some(eps.deep_view()),
            None => spec_json_to_endpoints(json_member_views(ms@)) is None,
        }),
{
    proof {
        lemma_json_member_views_index(ms@);
    }
    let ghost gs = json_member_views(ms@);
    let mut out: Vec<(String, EndpointConfig)> = Vec::new();
    let mut k: usize = 0;
    while k < ms.len()
        invariant
            k <= ms@.len(),
            out@.len() == k,
            forall|j: int| 0 <= j < k
                ==> out@[j].0@ == gs[j].0
                    && spec_json_to_endpoint_cfg(gs[j].1) == Some(out@[j].1@),
        decreases ms@.len() - k,
    {
        match value_to_endpoint_cfg(&ms[k].1) {
            Some(e) => {
                out.push((ms[k].0.clone(), e));
            },
            None => {
                proof {
                    lemma_json_to_endpoints_fail(gs, k as int);
                }
                return None;
            },
        }
        k += 1;
    }
    proof {
        lemma_json_to_endpoints_ok(gs, out.deep_view());
    }
    Some(out)
}

// --- scheme and scope lists -------------------------------------------------

/// A list of security schemes as JSON documents.
pub open spec fn spec_schemes_to_json(s: Seq<SecuritySchemeView>) -> Seq<JsonView>
    decreases s.len(),
{
    if s.len() == 0 {
        Seq::empty()
    } else {
        seq![spec_scheme_to_json(s[0])] + spec_schemes_to_json(s.drop_first())
    }
}

pub proof fn lemma_schemes_to_json_index(s: Seq<SecuritySchemeView>)
    ensures
        spec_schemes_to_json(s).len() == s.len(),
        forall|i: int| 0 <= i < s.len()
            ==> spec_schemes_to_json(s)[i] == spec_scheme_to_json(s[i]),
    decreases s.len(),
{
    if s.len() > 0 {
        lemma_schemes_to_json_index(s.drop_first());
    }
}

/// The scheme list a list of JSON documents denotes.
pub open spec fn spec_json_to_schemes(s: Seq<JsonView>) -> Option<Seq<SecuritySchemeView>>
    decreases s.len(),
{
    if s.len() == 0 {
        Some(Seq::empty())
    } else {
        match (spec_json_to_scheme(s[0]), spec_json_to_schemes(s.drop_first())) {
            (Some(x), Some(rest)) => Some(seq![x] + rest),
            _ => None,
        }
    }
}

/// Encode a list of security schemes.
#[verifier::loop_isolation(false)]
pub fn schemes_to_values(schemes: &Vec<SecurityScheme>) -> (r: Vec<JsonValue>)
    ensures
        json_views(r@) == spec_schemes_to_json(schemes.deep_view()),
{
    let ghost gs = schemes.deep_view();
    let mut out: Vec<JsonValue> = Vec::new();
    let mut k: usize = 0;
    while k < schemes.len()
        invariant
            k <= schemes@.len(),
            gs.len() == schemes@.len(),
            forall|j: int| 0 <= j < gs.len() ==> gs[j] == schemes@[j]@,
            out@.len() == k,
            forall|j: int| 0 <= j < k ==> out@[j]@ == spec_scheme_to_json(gs[j]),
        decreases schemes@.len() - k,
    {
        out.push(scheme_to_value(&schemes[k]));
        k += 1;
    }
    proof {
        lemma_json_views_index(out@);
        lemma_schemes_to_json_index(gs);
        assert(json_views(out@) =~= spec_schemes_to_json(gs));
    }
    out
}

proof fn lemma_json_to_schemes_fail(s: Seq<JsonView>, i: int)
    requires
        0 <= i < s.len(),
        spec_json_to_scheme(s[i]) is None,
    ensures
        spec_json_to_schemes(s) is None,
    decreases i,
{
    if i > 0 {
        lemma_json_to_schemes_fail(s.drop_first(), i - 1);
    }
}

proof fn lemma_json_to_schemes_ok(s: Seq<JsonView>, out: Seq<SecuritySchemeView>)
    requires
        s.len() == out.len(),
        forall|i: int| 0 <= i < s.len() ==> spec_json_to_scheme(s[i]) == Some(out[i]),
    ensures
        spec_json_to_schemes(s) == Some(out),
    decreases s.len(),
{
    if s.len() == 0 {
        assert(out =~= Seq::<SecuritySchemeView>::empty());
    } else {
        lemma_json_to_schemes_ok(s.drop_first(), out.drop_first());
        assert(seq![out[0]] + out.drop_first() =~= out);
    }
}

/// A decoded list of security schemes.
pub type SchemeList = Vec<SecurityScheme>;

/// Decode a list of security schemes.
#[verifier::loop_isolation(false)]
pub fn values_to_schemes(vals: &Vec<JsonValue>) -> (r: Option<SchemeList>)
    ensures
        (match r {
            Some(ss) => spec_json_to_schemes(json_views(vals@)) == Some(ss.deep_view()),
            None => spec_json_to_schemes(json_views(vals@)) is None,
        }),
{
    proof {
        lemma_json_views_index(vals@);
    }
    let ghost gs = json_views(vals@);
    let mut out: Vec<SecurityScheme> = Vec::new();
    let mut k: usize = 0;
    while k < vals.len()
        invariant
            k <= vals@.len(),
            out@.len() == k,
            forall|j: int| 0 <= j < k ==> spec_json_to_scheme(gs[j]) == Some(out@[j]@),
        decreases vals@.len() - k,
    {
        match value_to_scheme(&vals[k]) {
            Some(x) => {
                out.push(x);
            },
            None => {
                proof {
                    lemma_json_to_schemes_fail(gs, k as int);
                }
                return None;
            },
        }
        k += 1;
    }
    proof {
        lemma_json_to_schemes_ok(gs, out.deep_view());
    }
    Some(out)
}

/// An agent scope as a JSON document.
pub open spec fn spec_scope_to_json(s: AgentScopeView) -> JsonView {
    JsonView::Obj(
        seq![("scopeType"@, JsonView::Str(s.scope_type))]
            + seq![("scopeId"@, JsonView::Str(s.scope_id))],
    )
}

/// The agent scope a JSON document denotes.
pub open spec fn spec_json_to_scope(v: JsonView) -> Option<AgentScopeView> {
    match v {
        JsonView::Obj(ms) => {
            if spec_obj_has_key(ms, "scopeType"@) && spec_obj_has_key(ms, "scopeId"@) {
                match (spec_obj_get(ms, "scopeType"@), spec_obj_get(ms, "scopeId"@)) {
                    (JsonView::Str(scope_type), JsonView::Str(scope_id)) => Some(AgentScopeView {
                        scope_type,
                        scope_id,
                    }),
                    _ => None,
                }
            } else {
                None
            }
        },
        _ => None,
    }
}

/// Encode an agent scope.
pub fn scope_to_value(s: &AgentScope) -> (r: JsonValue)
    ensures
        r@ == spec_scope_to_json(s@),
{
    let mut ms: Vec<(String, JsonValue)> = Vec::new();
    ms.push((String::from_str("scopeType"), JsonValue::Str(s.scope_type.clone())));
    ms.push((String::from_str("scopeId"), JsonValue::Str(s.scope_id.clone())));
    let r = JsonValue::Obj(ms);
    proof {
        lemma_json_member_views_index(r->Obj_0@);
        assert(r@->Obj_0 =~= spec_scope_to_json(s@)->Obj_0);
    }
    r
}

/// Decode an agent scope.
pub fn value_to_scope(v: &JsonValue) -> (r: Option<AgentScope>)
    ensures
        (match r {
            Some(s) => spec_json_to_scope(v@) == Some(s@),
            None => spec_json_to_scope(v@) is None,
        }),
{
    let is_obj = match v {
        JsonValue::Obj(_) => true,
        _ => false,
    };
    if !is_obj {
        return None;
    }
    let scope_type = match v.get("scopeType") {
        Some(field) => match field.as_str() {
            Some(s) => s.clone(),
            None => {
                return None;
            },
        },
        None => {
            return None;
        },
    };
    let scope_id = match v.get("scopeId") {
        Some(field) => match field.as_str() {
            Some(s) => s.clone(),
            None => {
                return None;
            },
        },
        None => {
            return None;
        },
    };
    Some(AgentScope { scope_type, scope_id })
}

/// A list of agent scopes as JSON documents.
pub open spec fn spec_scopes_to_json(s: Seq<AgentScopeView>) -> Seq<JsonView>
    decreases s.len(),
{
    if s.len() == 0 {
        Seq::empty()
    } else {
        seq![spec_scope_to_json(s[0])] + spec_scopes_to_json(s.drop_first())
    }
}

pub proof fn lemma_scopes_to_json_index(s: Seq<AgentScopeView>)
    ensures
        spec_scopes_to_json(s).len() == s.len(),
        forall|i: int| 0 <= i < s.len() ==> spec_scopes_to_json(s)[i] == spec_scope_to_json(s[i]),
    decreases s.len(),
{
    if s.len() > 0 {
        lemma_scopes_to_json_index(s.drop_first());
    }
}

/// The scope list a list of JSON documents denotes.
pub open spec fn spec_json_to_scopes(s: Seq<JsonView>) -> Option<Seq<AgentScopeView>>
    decreases s.len(),
{
    if s.len() == 0 {
        Some(Seq::empty())
    } else {
        match (spec_json_to_scope(s[0]), spec_json_to_scopes(s.drop_first())) {
            (Some(x), Some(rest)) => Some(seq![x] + rest),
            _ => None,
        }
    }
}

/// Encode a list of agent scopes.
#[verifier::loop_isolation(false)]
pub fn scopes_to_values(scopes: &Vec<AgentScope>) -> (r: Vec<JsonValue>)
    ensures
        json_views(r@) == spec_scopes_to_json(scopes.deep_view()),
{
    let ghost gs = scopes.deep_view();
    let mut out: Vec<JsonValue> = Vec::new();
    let mut k: usize = 0;
    while k < scopes.len()
        invariant
            k <= scopes@.len(),
            gs.len() == scopes@.len(),
            forall|j: int| 0 <= j < gs.len() ==> gs[j] == scopes@[j]@,
            out@.len() == k,
            forall|j: int| 0 <= j < k ==> out@[j]@ == spec_scope_to_json(gs[j]),
        decreases scopes@.len() - k,
    {
        out.push(scope_to_value(&scopes[k]));
        k += 1;
    }
    proof {
        lemma_json_views_index(out@);
        lemma_scopes_to_json_index(gs);
        assert(json_views(out@) =~= spec_scopes_to_json(gs));
    }
    out
}

proof fn lemma_json_to_scopes_fail(s: Seq<JsonView>, i: int)
    requires
        0 <= i < s.len(),
        spec_json_to_scope(s[i]) is None,
    ensures
        spec_json_to_scopes(s) is None,
    decreases i,
{
    if i > 0 {
        lemma_json_to_scopes_fail(s.drop_first(), i - 1);
    }
}

proof fn lemma_json_to_scopes_ok(s: Seq<JsonView>, out: Seq<AgentScopeView>)
    requires
        s.len() == out.len(),
        forall|i: int| 0 <= i < s.len() ==> spec_json_to_scope(s[i]) == Some(out[i]),
    ensures
        spec_json_to_scopes(s) == Some(out),
    decreases s.len(),
{
    if s.len() == 0 {
        assert(out =~= Seq::<AgentScopeView>::empty());
    } else {
        lemma_json_to_scopes_ok(s.drop_first(), out.drop_first());
        assert(seq![out[0]] + out.drop_first() =~= out);
    }
}

/// A decoded list of agent scopes.
pub type ScopeList = Vec<AgentScope>;

/// Decode a list of agent scopes.
#[verifier::loop_isolation(false)]
pub fn values_to_scopes(vals: &Vec<JsonValue>) -> (r: Option<ScopeList>)
    ensures
        (match r {
            Some(ss) => spec_json_to_scopes(json_views(vals@)) == Some(ss.deep_view()),
            None => spec_json_to_scopes(json_views(vals@)) is None,
        }),
{
    proof {
        lemma_json_views_index(vals@);
    }
    let ghost gs = json_views(vals@);
    let mut out: Vec<AgentScope> = Vec::new();
    let mut k: usize = 0;
    while k < vals.len()
        invariant
            k <= vals@.len(),
            out@.len() == k,
            forall|j: int| 0 <= j < k ==> spec_json_to_scope(gs[j]) == Some(out@[j]@),
        decreases vals@.len() - k,
    {
        match value_to_scope(&vals[k]) {
            Some(x) => {
                out.push(x);
            },
            None => {
                proof {
                    lemma_json_to_scopes_fail(gs, k as int);
                }
                return None;
            },
        }
        k += 1;
    }
    proof {
        lemma_json_to_scopes_ok(gs, out.deep_view());
    }
    Some(out)
}

// --- the card ---------------------------------------------------------------

/// The members of an agent-card object, in encoding order.
pub open spec fn spec_card_members(c: AgentCardView) -> Seq<(Seq<char>, JsonView)> {
    spec_opt_str_member("id"@, c.id)
        + spec_opt_str_member("organizationId"@, c.organization_id)
        + seq![("name"@, JsonView::Str(c.name))]
        + seq![("description"@, JsonView::Str(c.description))]
        + seq![("capabilities"@, spec_caps_to_json(c.capabilities))]
        + (match c.authentication {
            Some(ss) => seq![("authentication"@, JsonView::Arr(spec_schemes_to_json(ss)))],
            None => Seq::empty(),
        })
        + seq![("endpoints"@, JsonView::Obj(spec_endpoints_members(c.endpoints)))]
        + spec_opt_str_member("version"@, c.version)
        + spec_opt_str_member("documentationUrl"@, c.documentation_url)
        + (match c.scopes {
            Some(ss) => seq![("scopes"@, JsonView::Arr(spec_scopes_to_json(ss)))],
            None => Seq::empty(),
        })
}

/// An agent card as a JSON document.
pub open spec fn spec_card_to_json(c: AgentCardView) -> JsonView {
    JsonView::Obj(spec_card_members(c))
}

/// The agent card a JSON document denotes.
pub open spec fn spec_json_to_card(v: JsonView) -> Option<AgentCardView> {
    match v {
        JsonView::Obj(ms) => {
            if spec_obj_has_key(ms, "name"@) && spec_obj_has_key(ms, "description"@)
                && spec_obj_has_key(ms, "capabilities"@) && spec_obj_has_key(ms, "endpoints"@) {
                match (spec_obj_get(ms, "name"@), spec_obj_get(ms, "description"@),
                    spec_json_to_caps(spec_obj_get(ms, "capabilities"@)),
                    spec_obj_get(ms, "endpoints"@)) {
                    (JsonView::Str(name), JsonView::Str(description), Some(capabilities),
                        JsonView::Obj(eps_ms)) => {
                        match (spec_json_to_endpoints(eps_ms), spec_opt_str_field(ms, "id"@),
                            spec_opt_str_field(ms, "organizationId"@),
                            spec_opt_str_field(ms, "version"@),
                            spec_opt_str_field(ms, "documentationUrl"@),
                            spec_json_to_card_auth(ms), spec_json_to_card_scopes(ms)) {
                            (Some(endpoints), Some(id), Some(organization_id), Some(version),
                                Some(documentation_url), Some(authentication), Some(scopes)) =>
                                Some(AgentCardView {
                                id,
                                organization_id,
                                name,
                                description,
                                capabilities,
                                authentication,
                                endpoints,
                                version,
                                documentation_url,
                                scopes,
                            }),
                            _ => None,
                        }
                    },
                    _ => None,
                }
            } else {
                None
            }
        },
        _ => None,
    }
}

/// The optional authentication list of a card object.
pub open spec fn spec_json_to_card_auth(
    ms: Seq<(Seq<char>, JsonView)>,
) -> Option<Option<Seq<SecuritySchemeView>>> {
    if spec_obj_has_key(ms, "authentication"@) {
        match spec_obj_get(ms, "authentication"@) {
            JsonView::Arr(items) => match spec_json_to_schemes(items) {
                Some(ss) => Some(Some(ss)),
                None => None,
            },
            _ => None,
        }
    } else {
        Some(None)
    }
}

/// The optional scope list of a card object.
pub open spec fn spec_json_to_card_scopes(
    ms: Seq<(Seq<char>, JsonView)>,
) -> Option<Option<Seq<AgentScopeView>>> {
    if spec_obj_has_key(ms, "scopes"@) {
        match spec_obj_get(ms, "scopes"@) {
            JsonView::Arr(items) => match spec_json_to_scopes(items) {
                Some(ss) => Some(Some(ss)),
                None => None,
            },
            _ => None,
        }
    } else {
        Some(None)
    }
}

/// Encode an agent card.
#[verifier::rlimit(60)]
pub fn card_to_value(c: &AgentCard) -> (r: JsonValue)
    ensures
        r@ == spec_card_to_json(c@),
{
    let mut ms: Vec<(String, JsonValue)> = Vec::new();
    match &c.id {
        Some(s) => {
            ms.push((String::from_str("id"), JsonValue::Str(s.clone())));
        },
        None => {},
    }
    match &c.organization_id {
        Some(s) => {
            ms.push((String::from_str("organizationId"), JsonValue::Str(s.clone())));
        },
        None => {},
    }
    ms.push((String::from_str("name"), JsonValue::Str(c.name.clone())));
    ms.push((String::from_str("description"), JsonValue::Str(c.description.clone())));
    ms.push((String::from_str("capabilities"), caps_to_value(&c.capabilities)));
    match &c.authentication {
        Some(ss) => {
            ms.push((String::from_str("authentication"), JsonValue::Arr(schemes_to_values(ss))));
        },
        None => {},
    }
    ms.push((String::from_str("endpoints"), JsonValue::Obj(endpoints_to_members(&c.endpoints))));
    match &c.version {
        Some(s) => {
            ms.push((String::from_str("version"), JsonValue::Str(s.clone())));
        },
        None => {},
    }
    match &c.documentation_url {
        Some(s) => {
            ms.push((String::from_str("documentationUrl"), JsonValue::Str(s.clone())));
        },
        None => {},
    }
    match &c.scopes {
        Some(ss) => {
            ms.push((String::from_str("scopes"), JsonValue::Arr(scopes_to_values(ss))));
        },
        None => {},
    }
    let r = JsonValue::Obj(ms);
    proof {
        lemma_json_member_views_index(r->Obj_0@);
        assert(r@->Obj_0 =~= spec_card_members(c@));
    }
    r
}

/// Decode an agent card.
#[verifier::rlimit(30)]
pub fn value_to_card(v: &JsonValue) -> (r: Option<AgentCard>)
    ensures
        (match r {
            Some(c) => spec_json_to_card(v@) == Some(c@),
            None => spec_json_to_card(v@) is None,
        }),
{
    let is_obj = match v {
        JsonValue::Obj(_) => true,
        _ => false,
    };
    if !is_obj {
        return None;
    }
    let name = match v.get("name") {
        Some(field) => match field.as_str() {
            Some(s) => s.clone(),
            None => {
                return None;
            },
        },
        None => {
            return None;
        },
    };
    let description = match v.get("description") {
        Some(field) => match field.as_str() {
            Some(s) => s.clone(),
            None => {
                return None;
            },
        },
        None => {
            return None;
        },
    };
    let capabilities = match v.get("capabilities") {
        Some(field) => match value_to_caps(field) {
            Some(c) => c,
            None => {
                return None;
            },
        },
        None => {
            return None;
        },
    };
    let endpoints = match v.get("endpoints") {
        Some(field) => match field {
            JsonValue::Obj(eps_ms) => match members_to_endpoints(eps_ms) {
                Some(eps) => eps,
                None => {
                    return None;
                },
            },
            _ => {
                return None;
            },
        },
        None => {
            return None;
        },
    };
    let id = match get_opt_str_field(v, "id") {
        Some(opt) => opt,
        None => {
            return None;
        },
    };
    let organization_id = match get_opt_str_field(v, "organizationId") {
        Some(opt) => opt,
        None => {
            return None;
        },
    };
    let version = match get_opt_str_field(v, "version") {
        Some(opt) => opt,
        None => {
            return None;
        },
    };
    let documentation_url = match get_opt_str_field(v, "documentationUrl") {
        Some(opt) => opt,
        None => {
            return None;
        },
    };
    let authentication = match v.get("authentication") {
        Some(field) => match field {
            JsonValue::Arr(items) => match values_to_schemes(items) {
                Some(ss) => Some(ss),
                None => {
                    return None;
                },
            },
            _ => {
                return None;
            },
        },
        None => None,
    };
    let scopes = match v.get("scopes") {
        Some(field) => match field {
            JsonValue::Arr(items) => match values_to_scopes(items) {
                Some(ss) => Some(ss),
                None => {
                    return None;
                },
            },
            _ => {
                return None;
            },
        },
        None => None,
    };
    Some(AgentCard {
        id,
        organization_id,
        name,
        description,
        capabilities,
        authentication,
        endpoints,
        version,
        documentation_url,
        scopes,
    })
}

} // verus!
