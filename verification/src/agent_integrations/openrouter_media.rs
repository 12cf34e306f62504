//! Typed request/response data for the OpenRouter media routes
//! (`/agent-integrations/openrouter/{images,videos}`), shaped after
//! OpenRouter's published `ImageGenerationRequest`, `VideoGenerationRequest`,
//! `FrameImage` and `ContentPartImage` schemas.

use vstd::prelude::*;

use super::openrouter::{video_content_request, video_content_view};
use super::{get_view, json_post_result, AgentIntegrationsApi};
use crate::error::Error;
use crate::http::{ApiRequest, HttpMethod, QueryParam, ResponseShape};

verus! {

/// `image_url` reference used by both `input_references` and `frame_images`.
#[derive(Debug, Clone, PartialEq, Default)]
pub struct OpenRouterImageUrl {
    pub url: String,
}

/// An image reference (`{ type: "image_url", image_url: { url } }`), used
/// for `input_references` on both images and videos. `kind` is the wire
/// `type` member.
#[derive(Debug, Clone, PartialEq)]
pub struct ContentPartImage {
    pub kind: String,
    pub image_url: OpenRouterImageUrl,
}

impl ContentPartImage {
    /// Build an `{ type: "image_url", image_url: { url } }` reference.
    pub fn image_url(url: &str) -> (part: Self)
        ensures
            part.kind@ == "image_url"@,
            part.image_url.url@ == url@,
    {
        ContentPartImage {
            kind: "image_url".to_owned(),
            image_url: OpenRouterImageUrl { url: url.to_owned() },
        }
    }
}

/// A first/last-frame image for video generation (`ContentPartImage` plus
/// `frame_type`, which is `"first_frame"` or `"last_frame"`).
#[derive(Debug, Clone, PartialEq)]
pub struct FrameImage {
    pub kind: String,
    pub image_url: OpenRouterImageUrl,
    pub frame_type: String,
}

impl FrameImage {
    /// The image the video starts from.
    pub fn first_frame(url: &str) -> (frame: Self)
        ensures
            frame.kind@ == "image_url"@,
            frame.image_url.url@ == url@,
            frame.frame_type@ == "first_frame"@,
    {
        FrameImage {
            kind: "image_url".to_owned(),
            image_url: OpenRouterImageUrl { url: url.to_owned() },
            frame_type: "first_frame".to_owned(),
        }
    }

    /// The image the video ends on.
    pub fn last_frame(url: &str) -> (frame: Self)
        ensures
            frame.kind@ == "image_url"@,
            frame.image_url.url@ == url@,
            frame.frame_type@ == "last_frame"@,
    {
        FrameImage {
            kind: "image_url".to_owned(),
            image_url: OpenRouterImageUrl { url: url.to_owned() },
            frame_type: "last_frame".to_owned(),
        }
    }
}

/// One generated image of an image generation response.
#[derive(Debug, Clone, PartialEq, Default)]
pub struct OpenRouterImageData {
    pub b64_json: String,
    pub media_type: Option<String>,
}

/// Video bytes plus the upstream `content-type`, when the response carried one.
#[derive(Debug, Clone, PartialEq, Eq)]
pub struct OpenRouterVideoContent {
    pub bytes: Vec<u8>,
    pub content_type: Option<String>,
}

impl<'a> AgentIntegrationsApi<'a> {
    /// Generate an image with a typed request; refused when the serialized
    /// request asks for `stream: true` (as `stream` or through `extra`).
    pub fn openrouter_images(&self, stream: Option<bool>) -> (r: Result<ApiRequest, Error>)
        ensures
            json_post_result(r, "/agent-integrations/openrouter/images"@, stream, ResponseShape::Envelope),
    {
        self.post("/agent-integrations/openrouter/images", stream)
    }

    /// List image-generation models, typed; the same route as
    /// [`AgentIntegrationsApi::list_openrouter_image_models`].
    pub fn openrouter_image_models(&self, query: &[QueryParam]) -> (r: ApiRequest)
        ensures
            r@ == get_view("/agent-integrations/openrouter/images/models"@, query@, ResponseShape::Envelope),
    {
        self.get("/agent-integrations/openrouter/images/models".to_owned(), query)
    }

    /// Submit a video generation job with a typed request; refused when the
    /// serialized request asks for `stream: true`.
    pub fn openrouter_videos(&self, stream: Option<bool>) -> (r: Result<ApiRequest, Error>)
        ensures
            json_post_result(r, "/agent-integrations/openrouter/videos"@, stream, ResponseShape::Envelope),
    {
        self.post("/agent-integrations/openrouter/videos", stream)
    }

    /// List video-generation models, typed; the same route as
    /// [`AgentIntegrationsApi::list_openrouter_video_models`].
    pub fn openrouter_video_models(&self, query: &[QueryParam]) -> (r: ApiRequest)
        ensures
            r@ == get_view("/agent-integrations/openrouter/videos/models"@, query@, ResponseShape::Envelope),
    {
        self.get("/agent-integrations/openrouter/videos/models".to_owned(), query)
    }

    /// Download the rendered video along with its upstream `content-type`:
    /// the same request as [`AgentIntegrationsApi::openrouter_video_content`].
    pub fn openrouter_video_content_with_type(&self, job_id: &str, index: Option<u32>) -> (r: ApiRequest)
        ensures
            r@ == video_content_view(job_id@, index, ResponseShape::Bytes),
            r.method == HttpMethod::Get,
            !r.has_body,
    {
        video_content_request(job_id, index)
    }
}

} // verus!
