//! What a call puts on the wire, decided before anything is sent: the method,
//! the path, the query string and the shape of the response the transport
//! should expect. The transport performs the call.

use vstd::prelude::*;

verus! {

/// The HTTP methods the routes use.
#[derive(Debug, Clone, Copy, PartialEq, Eq, Structural)]
pub enum HttpMethod {
    Get,
    Post,
    Delete,
}

/// How the transport reads a successful response.
#[derive(Debug, Clone, Copy, PartialEq, Eq, Structural)]
pub enum ResponseShape {
    /// A `{ success, data }` envelope; the caller gets `data`.
    Envelope,
    /// The upstream provider's JSON payload, handed back as it came.
    Verbatim,
    /// Raw bytes, with the upstream `content-type` when there is one.
    Bytes,
}

/// One query parameter as callers pass it: a name and an optional value.
/// Parameters without a value are left out of the query string.
pub type QueryParam<'a> = (&'a str, Option<String>);

/// A request to send: route, query pairs and the response shape to expect.
/// When `has_body` is set, the transport sends the caller's JSON body.
#[derive(Debug)]
pub struct ApiRequest {
    pub method: HttpMethod,
    pub path: String,
    pub query: Vec<(String, String)>,
    pub has_body: bool,
    pub response: ResponseShape,
}

/// The mathematical content of an [`ApiRequest`].
pub struct RequestView {
    pub method: HttpMethod,
    pub path: Seq<char>,
    pub query: Seq<(Seq<char>, Seq<char>)>,
    pub has_body: bool,
    pub response: ResponseShape,
}

pub open spec fn pairs_view(pairs: Seq<(String, String)>) -> Seq<(Seq<char>, Seq<char>)> {
    pairs.map_values(|p: (String, String)| (p.0@, p.1@))
}

impl View for ApiRequest {
    type V = RequestView;

    open spec fn view(&self) -> RequestView {
        RequestView {
            method: self.method,
            path: self.path@,
            query: pairs_view(self.query@),
            has_body: self.has_body,
            response: self.response,
        }
    }
}

/// The query pairs that parameters produce: those with a value, in order.
pub open spec fn present_pairs(params: Seq<QueryParam>) -> Seq<(Seq<char>, Seq<char>)>
    decreases params.len(),
{
    if params.len() == 0 {
        Seq::empty()
    } else {
        let rest = present_pairs(params.drop_last());
        match params.last().1 {
            Some(v) => rest.push((params.last().0@, v@)),
            None => rest,
        }
    }
}

/// Keep the parameters that carry a value, in order, as owned pairs.
pub fn present_query(params: &[QueryParam]) -> (pairs: Vec<(String, String)>)
    ensures
        pairs_view(pairs@) == present_pairs(params@),
{
    let mut pairs: Vec<(String, String)> = Vec::new();
    let n = params.len();
    for i in 0..n
        invariant
            n == params@.len(),
            pairs_view(pairs@) =~= present_pairs(params@.take(i as int)),
    {
        let param = &params[i];
        assert(params@.take(i + 1).drop_last() =~= params@.take(i as int));
        assert(params@.take(i + 1).last() == params@[i as int]);
        match &param.1 {
            Some(v) => {
                let name = param.0.to_owned();
                let value = v.clone();
                pairs.push((name, value));
            },
            None => {},
        }
        assert(pairs_view(pairs@) =~= present_pairs(params@.take(i + 1)));
    }
    assert(params@.take(n as int) =~= params@);
    pairs
}

/// The query keeps each parameter that has a value as the pair (name, value),
/// with the caller's value string unchanged (the transport encodes it once),
/// appends it after the pairs of the parameters before it, and drops a
/// parameter without a value.
pub proof fn query_pairs_are_the_callers_values<'a>(
    params: Seq<QueryParam<'a>>,
    name: &'a str,
    value: String,
)
    ensures
        present_pairs(Seq::<QueryParam<'a>>::empty()).len() == 0,
        present_pairs(params.push((name, Some(value)))) == present_pairs(params).push(
            (name@, value@),
        ),
        present_pairs(params.push((name, None))) == present_pairs(params),
        present_pairs(seq![(name, Some(value))]) == seq![(name@, value@)],
{
    assert(params.push((name, Some(value))).drop_last() =~= params);
    assert(params.push((name, None::<String>)).drop_last() =~= params);
    assert(seq![(name, Some(value))].drop_last() =~= Seq::<QueryParam<'a>>::empty());
    assert(present_pairs(Seq::<QueryParam<'a>>::empty()).push((name@, value@)) =~= seq![
        (name@, value@),
    ]);
}

/// Where requests go and on whose behalf.
pub struct HttpClient {
    base_url: String,
    token: Option<String>,
}

impl HttpClient {
    pub closed spec fn spec_base_url(&self) -> Seq<char> {
        self.base_url@
    }

    pub closed spec fn spec_token(&self) -> Option<Seq<char>> {
        match self.token {
            Some(t) => Some(t@),
            None => None,
        }
    }

    /// A client for the API rooted at `base_url`, without a bearer token.
    pub fn new(base_url: &str) -> (c: Self)
        ensures
            c.spec_base_url() == base_url@,
            c.spec_token() is None,
    {
        HttpClient { base_url: base_url.to_owned(), token: None }
    }

    /// The same client, authenticating with `token` when there is one.
    pub fn with_token(self, token: Option<String>) -> (c: Self)
        ensures
            c.spec_base_url() == self.spec_base_url(),
            c.spec_token() == (match token {
                Some(t) => Some(t@),
                None => None::<Seq<char>>,
            }),
    {
        HttpClient { base_url: self.base_url, token }
    }

    /// The base URL the client was made with.
    pub fn base_url(&self) -> (s: &str)
        ensures
            s@ == self.spec_base_url(),
    {
        self.base_url.as_str()
    }

    /// The absolute URL of a request's path.
    pub fn url(&self, request: &ApiRequest) -> (u: String)
        ensures
            u@ == self.spec_base_url() + request@.path,
    {
        let mut u = self.base_url.clone();
        u.append(request.path.as_str());
        u
    }

    /// The `Authorization` header value: `Bearer <token>` when the client has
    /// a token, none otherwise.
    pub fn authorization(&self) -> (h: Option<String>)
        ensures
            h matches Some(v) ==> self.spec_token() matches Some(t) && v@ == "Bearer "@ + t,
            h is None <==> self.spec_token() is None,
    {
        match &self.token {
            Some(t) => {
                let mut v = "Bearer ".to_owned();
                v.append(t.as_str());
                Some(v)
            },
            None => None,
        }
    }
}

} // verus!
