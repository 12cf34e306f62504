//! Direct OpenRouter proxy.
//!
//! These routes take bare OpenRouter model slugs (`provider/model`)
//! and pass the request body straight upstream, so any parameter OpenRouter
//! accepts is forwarded. Embeddings, images and videos each resolve against a
//! catalog of their own. Video generation is asynchronous: submit a job, poll
//! it by id, then download its content.

use vstd::prelude::*;

use super::{get_view, json_post_result, AgentIntegrationsApi};
use crate::encoding::{enc, encode_segment};
use crate::error::Error;
use crate::http::{pairs_view, ApiRequest, HttpMethod, QueryParam, RequestView, ResponseShape};
use crate::text::decimal;

verus! {

/// Input/output modality lists for an image model (`architecture` on the
/// upstream image catalog).
#[derive(Debug, Clone, PartialEq, Default)]
pub struct OpenRouterImageArchitecture {
    pub input_modalities: Vec<String>,
    pub output_modalities: Vec<String>,
}

} // verus!

verus! {

/// Path of one video job: the job id is percent-encoded as a single segment.
pub open spec fn video_job_path(job_id: Seq<char>) -> Seq<char> {
    "/agent-integrations/openrouter/videos/"@ + encode_segment(job_id)
}

/// Path of a video job's rendered content.
pub open spec fn video_content_path(job_id: Seq<char>) -> Seq<char> {
    video_job_path(job_id) + "/content"@
}

/// The query a video download carries: `index=<n>` when an output was
/// selected, nothing otherwise.
pub open spec fn index_pairs(index: Option<u32>) -> Seq<(Seq<char>, Seq<char>)> {
    match index {
        Some(i) => seq![("index"@, decimal(i as nat))],
        None => Seq::empty(),
    }
}

/// The request for a video download of `job_id`, answered in `response` shape.
pub open spec fn video_content_view(job_id: Seq<char>, index: Option<u32>, response: ResponseShape) -> RequestView {
    RequestView {
        method: HttpMethod::Get,
        path: video_content_path(job_id),
        query: index_pairs(index),
        has_body: false,
        response,
    }
}

/// A video download is a `GET` without a body of the job's `/content` path
/// under its percent-encoded id, with `index=<decimal>` exactly when an
/// output was selected.
pub proof fn video_download_is_a_get(job_id: Seq<char>, index: Option<u32>, response: ResponseShape)
    ensures
        video_content_view(job_id, index, response).method == HttpMethod::Get,
        !video_content_view(job_id, index, response).has_body,
        video_content_view(job_id, index, response).response == response,
        video_content_view(job_id, index, response).path == "/agent-integrations/openrouter/videos/"@
            + encode_segment(job_id) + "/content"@,
        index is None ==> video_content_view(job_id, index, response).query.len() == 0,
        index matches Some(i) ==> video_content_view(job_id, index, response).query == seq![
            ("index"@, decimal(i as nat)),
        ],
{
}

pub(crate) fn video_job_path_string(job_id: &str) -> (p: String)
    ensures
        p@ == video_job_path(job_id@),
{
    let mut p = "/agent-integrations/openrouter/videos/".to_owned();
    let segment = enc(job_id);
    p.append(segment.as_str());
    p
}

pub(crate) fn video_content_request(job_id: &str, index: Option<u32>) -> (r: ApiRequest)
    ensures
        r@ == video_content_view(job_id@, index, ResponseShape::Bytes),
        r.method == HttpMethod::Get,
        !r.has_body,
        r.response == ResponseShape::Bytes,
{
    let mut path = video_job_path_string(job_id);
    path.append("/content");
    let mut query: Vec<(String, String)> = Vec::new();
    match index {
        Some(i) => {
            let name = "index".to_owned();
            let value = crate::text::decimal_string(i);
            query.push((name, value));
        },
        None => {},
    }
    assert(pairs_view(query@) =~= index_pairs(index));
    ApiRequest { method: HttpMethod::Get, path, query, has_body: false, response: ResponseShape::Bytes }
}

impl<'a> AgentIntegrationsApi<'a> {
    /// List chat models available through the direct OpenRouter proxy.
    /// Supports `search`, `modality`, `tools`, `max_output_price`, `author`,
    /// `limit` and `offset`; parameters without a value are left out.
    pub fn list_openrouter_models(&self, query: &[QueryParam]) -> (r: ApiRequest)
        ensures
            r@ == get_view("/agent-integrations/openrouter/models"@, query@, ResponseShape::Envelope),
    {
        self.get("/agent-integrations/openrouter/models".to_owned(), query)
    }

    /// Create a chat completion straight against OpenRouter. A body with
    /// `stream: true` is refused with [`Error::StreamingNotSupported`]: the
    /// transport buffers the whole response, so a streamed reply would come
    /// back as one opaque string.
    pub fn openrouter_chat_completion(&self, stream: Option<bool>) -> (r: Result<ApiRequest, Error>)
        ensures
            json_post_result(r, "/agent-integrations/openrouter/chat/completions"@, stream, ResponseShape::Verbatim),
    {
        self.passthrough("/agent-integrations/openrouter/chat/completions", stream)
    }

    /// Create a text completion straight against OpenRouter; `stream: true`
    /// is refused as for chat completions.
    pub fn openrouter_completion(&self, stream: Option<bool>) -> (r: Result<ApiRequest, Error>)
        ensures
            json_post_result(r, "/agent-integrations/openrouter/completions"@, stream, ResponseShape::Verbatim),
    {
        self.passthrough("/agent-integrations/openrouter/completions", stream)
    }

    /// Create a message in Anthropic's format; `stream: true` is refused as
    /// for chat completions.
    pub fn openrouter_message(&self, stream: Option<bool>) -> (r: Result<ApiRequest, Error>)
        ensures
            json_post_result(r, "/agent-integrations/openrouter/messages"@, stream, ResponseShape::Verbatim),
    {
        self.passthrough("/agent-integrations/openrouter/messages", stream)
    }

    /// Evaluate typed questions with a Jev System One model, in TypeSafe's
    /// wire shape.
    pub fn openrouter_system_one(&self, stream: Option<bool>) -> (r: Result<ApiRequest, Error>)
        ensures
            json_post_result(r, "/agent-integrations/openrouter/systemone"@, stream, ResponseShape::Verbatim),
    {
        self.passthrough("/agent-integrations/openrouter/systemone", stream)
    }

    /// List embedding models, a catalog of their own.
    pub fn list_openrouter_embedding_models(&self, query: &[QueryParam]) -> (r: ApiRequest)
        ensures
            r@ == get_view("/agent-integrations/openrouter/embeddings/models"@, query@, ResponseShape::Envelope),
    {
        self.get("/agent-integrations/openrouter/embeddings/models".to_owned(), query)
    }

    /// Create embeddings; `model` must be an embedding slug.
    pub fn openrouter_embeddings(&self, stream: Option<bool>) -> (r: Result<ApiRequest, Error>)
        ensures
            json_post_result(r, "/agent-integrations/openrouter/embeddings"@, stream, ResponseShape::Verbatim),
    {
        self.passthrough("/agent-integrations/openrouter/embeddings", stream)
    }

    /// List image-generation models. They publish no price: an image is billed
    /// at the exact cost the generation response reports.
    pub fn list_openrouter_image_models(&self, query: &[QueryParam]) -> (r: ApiRequest)
        ensures
            r@ == get_view("/agent-integrations/openrouter/images/models"@, query@, ResponseShape::Envelope),
    {
        self.get("/agent-integrations/openrouter/images/models".to_owned(), query)
    }

    /// Generate an image; synchronous, the enveloped response carries the data.
    pub fn openrouter_create_image(&self, stream: Option<bool>) -> (r: Result<ApiRequest, Error>)
        ensures
            json_post_result(r, "/agent-integrations/openrouter/images"@, stream, ResponseShape::Envelope),
    {
        self.post("/agent-integrations/openrouter/images", stream)
    }

    /// List video-generation models, with their flat per-generation price.
    pub fn list_openrouter_video_models(&self, query: &[QueryParam]) -> (r: ApiRequest)
        ensures
            r@ == get_view("/agent-integrations/openrouter/videos/models"@, query@, ResponseShape::Envelope),
    {
        self.get("/agent-integrations/openrouter/videos/models".to_owned(), query)
    }

    /// Submit a video generation job; billed on submit, so polling and
    /// download cost nothing.
    pub fn openrouter_create_video(&self, stream: Option<bool>) -> (r: Result<ApiRequest, Error>)
        ensures
            json_post_result(r, "/agent-integrations/openrouter/videos"@, stream, ResponseShape::Envelope),
    {
        self.post("/agent-integrations/openrouter/videos", stream)
    }

    /// Poll a video generation job by id.
    pub fn get_openrouter_video(&self, job_id: &str) -> (r: ApiRequest)
        ensures
            r@ == get_view(video_job_path(job_id@), Seq::empty(), ResponseShape::Envelope),
    {
        let path = video_job_path_string(job_id);
        let none: [QueryParam; 0] = [];
        let r = self.get(path, &none);
        r
    }

    /// Download the rendered video; `index` selects one output when the job
    /// produced several.
    pub fn openrouter_video_content(&self, job_id: &str, index: Option<u32>) -> (r: ApiRequest)
        ensures
            r@ == video_content_view(job_id@, index, ResponseShape::Bytes),
            r.method == HttpMethod::Get,
            !r.has_body,
    {
        video_content_request(job_id, index)
    }
}

} // verus!
