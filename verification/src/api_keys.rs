use vstd::prelude::*;

use crate::encoding::{enc, encode_segment};
use crate::error::Error;
use crate::http::{pairs_view, ApiRequest, HttpClient, HttpMethod, RequestView, ResponseShape};

verus! {

/// What a key may reach, named by feature. `Connections` is machine-only: the
/// backend grants it automatically to a provisioned tenant origin during the
/// `GET /auth/key` PKCE flow and never accepts it from `POST /api-keys`, so it
/// is not a variant of [`CreatableApiKeyScope`].
#[derive(Debug, Clone, Copy, PartialEq, Eq, Structural)]
pub enum ApiKeyScope {
    Inference,
    Voice,
    Search,
    Media,
    Storage,
    Meetings,
    Account,
    Companies,
    Connections,
}

/// Scopes a caller may request when creating a key through `POST /api-keys`:
/// every [`ApiKeyScope`] but `Connections`.
#[derive(Debug, Clone, Copy, PartialEq, Eq, Structural)]
pub enum CreatableApiKeyScope {
    Inference,
    Voice,
    Search,
    Media,
    Storage,
    Meetings,
    Account,
    Companies,
}

/// The full scope that a creatable scope names.
pub open spec fn widen_scope(scope: CreatableApiKeyScope) -> ApiKeyScope {
    match scope {
        CreatableApiKeyScope::Inference => ApiKeyScope::Inference,
        CreatableApiKeyScope::Voice => ApiKeyScope::Voice,
        CreatableApiKeyScope::Search => ApiKeyScope::Search,
        CreatableApiKeyScope::Media => ApiKeyScope::Media,
        CreatableApiKeyScope::Storage => ApiKeyScope::Storage,
        CreatableApiKeyScope::Meetings => ApiKeyScope::Meetings,
        CreatableApiKeyScope::Account => ApiKeyScope::Account,
        CreatableApiKeyScope::Companies => ApiKeyScope::Companies,
    }
}

/// The create-request subset a full scope narrows to: every scope but
/// `Connections`, which is refused.
pub open spec fn narrow_scope(scope: ApiKeyScope) -> Result<CreatableApiKeyScope, Error> {
    match scope {
        ApiKeyScope::Inference => Ok(CreatableApiKeyScope::Inference),
        ApiKeyScope::Voice => Ok(CreatableApiKeyScope::Voice),
        ApiKeyScope::Search => Ok(CreatableApiKeyScope::Search),
        ApiKeyScope::Media => Ok(CreatableApiKeyScope::Media),
        ApiKeyScope::Storage => Ok(CreatableApiKeyScope::Storage),
        ApiKeyScope::Meetings => Ok(CreatableApiKeyScope::Meetings),
        ApiKeyScope::Account => Ok(CreatableApiKeyScope::Account),
        ApiKeyScope::Companies => Ok(CreatableApiKeyScope::Companies),
        ApiKeyScope::Connections => Err(Error::ScopeNotCreatable(scope)),
    }
}

impl From<CreatableApiKeyScope> for ApiKeyScope {
    fn from(scope: CreatableApiKeyScope) -> (r: Self) {
        match scope {
            CreatableApiKeyScope::Inference => Self::Inference,
            CreatableApiKeyScope::Voice => Self::Voice,
            CreatableApiKeyScope::Search => Self::Search,
            CreatableApiKeyScope::Media => Self::Media,
            CreatableApiKeyScope::Storage => Self::Storage,
            CreatableApiKeyScope::Meetings => Self::Meetings,
            CreatableApiKeyScope::Account => Self::Account,
            CreatableApiKeyScope::Companies => Self::Companies,
        }
    }
}

impl vstd::std_specs::convert::FromSpecImpl<CreatableApiKeyScope> for ApiKeyScope {
    open spec fn obeys_from_spec() -> bool {
        true
    }

    open spec fn from_spec(v: CreatableApiKeyScope) -> Self {
        widen_scope(v)
    }
}

/// Narrow a full scope (say, one read back from a listed key) to the
/// create-request subset. Fails with [`Error::ScopeNotCreatable`] for
/// `Connections`, so a caller learns why client-side instead of getting a 400
/// from the backend after the request already went out.
impl TryFrom<ApiKeyScope> for CreatableApiKeyScope {
    type Error = Error;

    fn try_from(scope: ApiKeyScope) -> (r: Result<Self, Error>) {
        match scope {
            ApiKeyScope::Inference => Ok(Self::Inference),
            ApiKeyScope::Voice => Ok(Self::Voice),
            ApiKeyScope::Search => Ok(Self::Search),
            ApiKeyScope::Media => Ok(Self::Media),
            ApiKeyScope::Storage => Ok(Self::Storage),
            ApiKeyScope::Meetings => Ok(Self::Meetings),
            ApiKeyScope::Account => Ok(Self::Account),
            ApiKeyScope::Companies => Ok(Self::Companies),
            ApiKeyScope::Connections => Err(Error::ScopeNotCreatable(scope)),
        }
    }
}

impl vstd::std_specs::convert::TryFromSpecImpl<ApiKeyScope> for CreatableApiKeyScope {
    open spec fn obeys_try_from_spec() -> bool {
        true
    }

    open spec fn try_from_spec(v: ApiKeyScope) -> Result<Self, Error> {
        narrow_scope(v)
    }
}

/// Widening a creatable scope and narrowing it again gives it back.
pub proof fn narrowing_undoes_widening(scope: CreatableApiKeyScope)
    ensures
        narrow_scope(widen_scope(scope)) == Ok::<CreatableApiKeyScope, Error>(scope),
{
}

/// Narrowing refuses `Connections` and nothing else, and whatever it lets
/// through widens back to the scope it came from.
pub proof fn narrowing_refuses_only_connections(scope: ApiKeyScope)
    ensures
        narrow_scope(scope) is Err <==> scope == ApiKeyScope::Connections,
        narrow_scope(scope) matches Ok(c) ==> widen_scope(c) == scope,
        narrow_scope(scope) matches Err(e) ==> e == Error::ScopeNotCreatable(scope),
{
}

/// Body of `POST /api-keys`. On the wire the members are camelCase, empty
/// lists and an absent expiry are left out, and scopes are lower-case.
#[derive(Debug, Clone)]
pub struct CreateApiKeyRequest {
    pub name: String,
    pub scopes: Vec<CreatableApiKeyScope>,
    pub allowed_ips: Vec<String>,
    pub expires_at: Option<String>,
}

/// Routes under `/api-keys`.
pub struct ApiKeysApi<'a> {
    http: &'a HttpClient,
}

/// The request a call on `/api-keys` becomes: no query, an enveloped reply.
pub open spec fn api_keys_view(method: HttpMethod, path: Seq<char>, has_body: bool) -> RequestView {
    RequestView { method, path, query: Seq::empty(), has_body, response: ResponseShape::Envelope }
}

/// Every `/api-keys` route answers in the `{ success, data }` envelope,
/// whatever its method and whether it carries a body, and sends no query.
pub proof fn api_key_routes_are_enveloped(method: HttpMethod, path: Seq<char>, has_body: bool)
    ensures
        api_keys_view(method, path, has_body).response == ResponseShape::Envelope,
        api_keys_view(method, path, has_body).method == method,
        api_keys_view(method, path, has_body).path == path,
        api_keys_view(method, path, has_body).has_body == has_body,
        api_keys_view(method, path, has_body).query.len() == 0,
{
}

fn api_keys_request(method: HttpMethod, path: String, has_body: bool) -> (r: ApiRequest)
    ensures
        r@ == api_keys_view(method, path@, has_body),
        r.method == method,
        r.has_body == has_body,
        r.response == ResponseShape::Envelope,
{
    let query: Vec<(String, String)> = Vec::new();
    assert(pairs_view(query@) =~= Seq::empty());
    ApiRequest { method, path, query, has_body, response: ResponseShape::Envelope }
}

impl<'a> ApiKeysApi<'a> {
    pub fn new(http: &'a HttpClient) -> (api: Self)
        ensures
            api.spec_http() == http,
    {
        ApiKeysApi { http }
    }

    pub closed spec fn spec_http(&self) -> &'a HttpClient {
        self.http
    }

    /// The client the routes are sent through.
    pub fn http(&self) -> (h: &'a HttpClient)
        ensures
            h == self.spec_http(),
    {
        self.http
    }

    /// `GET /api-keys`: the caller's keys.
    pub fn list(&self) -> (r: ApiRequest)
        ensures
            r@ == api_keys_view(HttpMethod::Get, "/api-keys"@, false),
            r.method == HttpMethod::Get,
            !r.has_body,
            r.response == ResponseShape::Envelope,
    {
        api_keys_request(HttpMethod::Get, "/api-keys".to_owned(), false)
    }

    /// `POST /api-keys`, carrying a [`CreateApiKeyRequest`] as its JSON body.
    pub fn create(&self) -> (r: ApiRequest)
        ensures
            r@ == api_keys_view(HttpMethod::Post, "/api-keys"@, true),
            r.method == HttpMethod::Post,
            r.has_body,
            r.response == ResponseShape::Envelope,
    {
        api_keys_request(HttpMethod::Post, "/api-keys".to_owned(), true)
    }

    /// `DELETE /api-keys/<key_id>`, the id percent-encoded as one segment.
    pub fn revoke(&self, key_id: &str) -> (r: ApiRequest)
        ensures
            r@ == api_keys_view(HttpMethod::Delete, "/api-keys/"@ + encode_segment(key_id@), false),
            r.method == HttpMethod::Delete,
            !r.has_body,
            r.response == ResponseShape::Envelope,
    {
        let mut path = "/api-keys/".to_owned();
        let segment = enc(key_id);
        path.append(segment.as_str());
        api_keys_request(HttpMethod::Delete, path, false)
    }
}

} // verus!
