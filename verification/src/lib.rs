//! Verified core of the TinyHumans SDK's API-key and direct OpenRouter surfaces.
//!
//! The library decides everything about a call that does not need the network:
//! which method, path, query and response shape a route uses, how a path segment
//! is percent-encoded, when a request is refused before it is sent (a streamed
//! body on a buffering transport), and how API-key scopes convert into one
//! another. Sending the request and decoding JSON is left to the transport.

pub mod agent_integrations;
pub mod api_keys;
pub mod encoding;
pub mod error;
pub mod http;
pub mod text;

pub use agent_integrations::openrouter::OpenRouterImageArchitecture;
pub use agent_integrations::openrouter_media::{
    ContentPartImage, FrameImage, OpenRouterImageData, OpenRouterImageUrl, OpenRouterVideoContent,
};
pub use agent_integrations::AgentIntegrationsApi;
pub use api_keys::{ApiKeyScope, ApiKeysApi, CreatableApiKeyScope, CreateApiKeyRequest};
pub use encoding::enc;
pub use error::Error;
pub use http::{ApiRequest, HttpClient, HttpMethod, QueryParam, ResponseShape};
