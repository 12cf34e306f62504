//! Agent integrations: the direct OpenRouter proxy and its typed media routes.
//!
//! Three kinds of routes share this surface. Catalogs, video polling and the
//! media routes answer with a `{ success, data }` envelope. Chat, completions,
//! messages, System One and embeddings are passthroughs whose upstream payload
//! comes back verbatim. Video downloads answer with raw bytes. Every JSON body
//! that asks for `stream: true` is refused before it is sent, because the
//! transport buffers the whole response body.

use vstd::prelude::*;

use crate::error::Error;
use crate::http::{ApiRequest, HttpClient, HttpMethod, QueryParam, RequestView, ResponseShape, pairs_view, present_pairs, present_query};

pub mod openrouter;
pub mod openrouter_media;

verus! {

/// Routes under `/agent-integrations`.
pub struct AgentIntegrationsApi<'a> {
    http: &'a HttpClient,
}

/// The request a JSON-bodied `POST` to `path` becomes, or the refusal it gets
/// when the body asks for `stream: true`.
pub open spec fn json_post(path: Seq<char>, stream: Option<bool>, response: ResponseShape) -> Option<
    RequestView,
> {
    if stream == Some(true) {
        None
    } else {
        Some(
            RequestView {
                method: HttpMethod::Post,
                path,
                query: Seq::empty(),
                has_body: true,
                response,
            },
        )
    }
}

/// What a JSON-bodied `POST` call returns, against [`json_post`]: the request
/// when it is let through, [`Error::StreamingNotSupported`] with the path
/// when it is not.
pub open spec fn json_post_result(
    r: Result<ApiRequest, Error>,
    path: Seq<char>,
    stream: Option<bool>,
    response: ResponseShape,
) -> bool {
    match (json_post(path, stream, response), r) {
        (Some(v), Ok(q)) => q@ == v,
        (None, Err(Error::StreamingNotSupported(p))) => p@ == path,
        _ => false,
    }
}

/// The request a `GET` of `path` with `params` becomes.
pub open spec fn get_view(path: Seq<char>, params: Seq<QueryParam>, response: ResponseShape) -> RequestView {
    RequestView {
        method: HttpMethod::Get,
        path,
        query: present_pairs(params),
        has_body: false,
        response,
    }
}

/// A JSON-bodied `POST` that is let through (the body does not ask for
/// `stream: true`) goes to the given path with the caller's body, no query and
/// the given response shape; one that asks for `stream: true` is never sent.
pub proof fn json_post_carries_the_body(path: Seq<char>, stream: Option<bool>, response: ResponseShape)
    ensures
        stream == Some(true) <==> json_post(path, stream, response) is None,
        stream != Some(true) ==> (json_post(path, stream, response) matches Some(v) && v.method
            == HttpMethod::Post && v.has_body && v.path == path && v.query.len() == 0 && v.response
            == response),
{
}

/// Every request a JSON-bodied route lets through carries the caller's body,
/// whether the body says `stream: false` or says nothing about streaming; a
/// refused one names the route.
pub proof fn let_through_requests_carry_the_body(
    r: Result<ApiRequest, Error>,
    path: Seq<char>,
    stream: Option<bool>,
    response: ResponseShape,
)
    requires
        json_post_result(r, path, stream, response),
    ensures
        stream != Some(true) ==> (r matches Ok(q) && q.method == HttpMethod::Post && q.has_body
            && q@.path == path && q@.query.len() == 0 && q.response == response),
        stream == Some(true) ==> (r matches Err(Error::StreamingNotSupported(p)) && p@ == path),
{
}

/// A catalog or polling `GET` carries no body and asks for the given path
/// with the parameters that have a value.
pub proof fn gets_carry_no_body(path: Seq<char>, params: Seq<QueryParam>, response: ResponseShape)
    ensures
        get_view(path, params, response).method == HttpMethod::Get,
        !get_view(path, params, response).has_body,
        get_view(path, params, response).path == path,
        get_view(path, params, response).response == response,
        get_view(path, params, response).query == present_pairs(params),
{
}

impl<'a> AgentIntegrationsApi<'a> {
    pub fn new(http: &'a HttpClient) -> (api: Self)
        ensures
            api.spec_http() == http,
    {
        AgentIntegrationsApi { http }
    }

    pub closed spec fn spec_http(&self) -> &'a HttpClient {
        self.http
    }

    /// The client the routes are sent through.
    pub fn http(&self) -> (h: &'a HttpClient)
        ensures
            h == self.spec_http(),
    {
        self.http
    }

    /// A `POST` whose JSON body comes back inside the `{ success, data }`
    /// envelope; refused when the body asks for `stream: true`.
    pub(crate) fn post(&self, path: &str, stream: Option<bool>) -> (r: Result<ApiRequest, Error>)
        ensures
            json_post_result(r, path@, stream, ResponseShape::Envelope),
    {
        json_call(path, stream, ResponseShape::Envelope)
    }

    /// A `POST` forwarded straight upstream whose payload comes back verbatim;
    /// refused when the body asks for `stream: true`.
    pub(crate) fn passthrough(&self, path: &str, stream: Option<bool>) -> (r: Result<ApiRequest, Error>)
        ensures
            json_post_result(r, path@, stream, ResponseShape::Verbatim),
    {
        json_call(path, stream, ResponseShape::Verbatim)
    }

    /// A `GET` answered inside the `{ success, data }` envelope.
    pub(crate) fn get(&self, path: String, params: &[QueryParam]) -> (r: ApiRequest)
        ensures
            r@ == get_view(path@, params@, ResponseShape::Envelope),
    {
        let query = present_query(params);
        ApiRequest { method: HttpMethod::Get, path, query, has_body: false, response: ResponseShape::Envelope }
    }
}

fn json_call(path: &str, stream: Option<bool>, response: ResponseShape) -> (r: Result<ApiRequest, Error>)
    ensures
        json_post_result(r, path@, stream, response),
        stream != Some(true) ==> (r matches Ok(q) && q.method == HttpMethod::Post && q.has_body
            && q.response == response),
{
    let owned = path.to_owned();
    match stream {
        Some(true) => {
            Err(Error::StreamingNotSupported(owned))
        },
        _ => {
            let query: Vec<(String, String)> = Vec::new();
            assert(pairs_view(query@) =~= Seq::empty());
            Ok(ApiRequest { method: HttpMethod::Post, path: owned, query, has_body: true, response })
        },
    }
}

} // verus!
