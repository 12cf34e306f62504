use vstd::prelude::*;

use crate::api_keys::ApiKeyScope;

verus! {

/// Errors the library raises on its own, before any request reaches the wire.
#[derive(Debug)]
pub enum Error {
    /// `stream: true` was asked of a route whose transport buffers the whole
    /// response body; carries the route's path.
    StreamingNotSupported(String),
    /// A scope that `POST /api-keys` never accepts was asked for.
    ScopeNotCreatable(ApiKeyScope),
}

} // verus!
