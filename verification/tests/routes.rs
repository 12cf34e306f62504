use tinyhumans_sdk::http::present_query;
use tinyhumans_sdk::{
    AgentIntegrationsApi, ApiKeysApi, ApiRequest, ContentPartImage, Error, FrameImage, HttpClient,
    HttpMethod, ResponseShape,
};

fn pairs(request: &ApiRequest) -> Vec<(&str, &str)> {
    request.query.iter().map(|(k, v)| (k.as_str(), v.as_str())).collect()
}

fn streaming_path(result: Result<ApiRequest, Error>) -> String {
    match result {
        Err(Error::StreamingNotSupported(path)) => path,
        other => panic!("unexpected result: {other:?}"),
    }
}

#[test]
fn query_parameters_without_a_value_are_dropped() {
    let query = present_query(&[
        ("author", Some("anthropic".into())),
        ("limit", None),
        ("offset", Some("10".into())),
    ]);
    assert_eq!(
        query,
        vec![
            ("author".to_string(), "anthropic".to_string()),
            ("offset".to_string(), "10".to_string())
        ]
    );
    assert!(present_query(&[]).is_empty());
}

#[test]
fn catalog_listing_is_an_enveloped_get_with_its_query() {
    let http = HttpClient::new("https://api.example.test");
    let api = AgentIntegrationsApi::new(&http);
    let request = api.list_openrouter_models(&[("author", Some("anthropic".into()))]);
    assert_eq!(request.method, HttpMethod::Get);
    assert_eq!(request.path, "/agent-integrations/openrouter/models");
    assert_eq!(pairs(&request), vec![("author", "anthropic")]);
    assert!(!request.has_body);
    assert_eq!(request.response, ResponseShape::Envelope);

    assert_eq!(
        api.list_openrouter_embedding_models(&[]).path,
        "/agent-integrations/openrouter/embeddings/models"
    );
    assert_eq!(api.list_openrouter_image_models(&[]).path, "/agent-integrations/openrouter/images/models");
    assert_eq!(api.openrouter_image_models(&[]).path, "/agent-integrations/openrouter/images/models");
    assert_eq!(api.list_openrouter_video_models(&[]).path, "/agent-integrations/openrouter/videos/models");
    assert_eq!(api.openrouter_video_models(&[]).path, "/agent-integrations/openrouter/videos/models");
}

#[test]
fn streaming_is_rejected_before_it_reaches_the_wire() {
    let http = HttpClient::new("https://api.example.test");
    let api = AgentIntegrationsApi::new(&http);
    assert_eq!(
        streaming_path(api.openrouter_chat_completion(Some(true))),
        "/agent-integrations/openrouter/chat/completions"
    );
    assert_eq!(
        streaming_path(api.openrouter_completion(Some(true))),
        "/agent-integrations/openrouter/completions"
    );
    assert_eq!(streaming_path(api.openrouter_message(Some(true))), "/agent-integrations/openrouter/messages");

    // `stream: false` (and omitting it) is unaffected.
    let request = api.openrouter_chat_completion(Some(false)).unwrap();
    assert_eq!(request.method, HttpMethod::Post);
    assert_eq!(request.path, "/agent-integrations/openrouter/chat/completions");
    assert!(request.has_body);
    assert_eq!(request.response, ResponseShape::Verbatim);
    assert!(request.query.is_empty());
    assert!(api.openrouter_chat_completion(None).is_ok());
}

#[test]
fn passthroughs_return_the_upstream_payload_verbatim() {
    let http = HttpClient::new("https://api.example.test");
    let api = AgentIntegrationsApi::new(&http);
    let system_one = api.openrouter_system_one(None).unwrap();
    assert_eq!(system_one.path, "/agent-integrations/openrouter/systemone");
    assert_eq!(system_one.response, ResponseShape::Verbatim);
    let embeddings = api.openrouter_embeddings(None).unwrap();
    assert_eq!(embeddings.path, "/agent-integrations/openrouter/embeddings");
    assert_eq!(embeddings.response, ResponseShape::Verbatim);
    assert_eq!(
        streaming_path(api.openrouter_embeddings(Some(true))),
        "/agent-integrations/openrouter/embeddings"
    );
}

#[test]
fn typed_media_requests_reject_streaming_before_the_wire() {
    let http = HttpClient::new("https://api.example.test");
    let api = AgentIntegrationsApi::new(&http);
    assert_eq!(streaming_path(api.openrouter_images(Some(true))), "/agent-integrations/openrouter/images");
    assert_eq!(streaming_path(api.openrouter_videos(Some(true))), "/agent-integrations/openrouter/videos");
    assert_eq!(
        streaming_path(api.openrouter_create_image(Some(true))),
        "/agent-integrations/openrouter/images"
    );
    assert_eq!(
        streaming_path(api.openrouter_create_video(Some(true))),
        "/agent-integrations/openrouter/videos"
    );
    let images = api.openrouter_images(None).unwrap();
    assert_eq!(images.method, HttpMethod::Post);
    assert_eq!(images.response, ResponseShape::Envelope);
    let videos = api.openrouter_create_video(Some(false)).unwrap();
    assert_eq!(videos.path, "/agent-integrations/openrouter/videos");
    assert_eq!(videos.response, ResponseShape::Envelope);
}

#[test]
fn video_job_ids_are_path_encoded() {
    let http = HttpClient::new("https://api.example.test");
    let api = AgentIntegrationsApi::new(&http);
    let request = api.get_openrouter_video("job/abc");
    assert_eq!(request.method, HttpMethod::Get);
    assert_eq!(request.path, "/agent-integrations/openrouter/videos/job%2Fabc");
    assert_eq!(request.response, ResponseShape::Envelope);
    assert_eq!(api.get_openrouter_video("job-abc").path, "/agent-integrations/openrouter/videos/job-abc");
}

#[test]
fn video_content_selects_an_output_by_index() {
    let http = HttpClient::new("https://api.example.test");
    let api = AgentIntegrationsApi::new(&http);
    let request = api.openrouter_video_content("job-abc", Some(1));
    assert_eq!(request.path, "/agent-integrations/openrouter/videos/job-abc/content");
    assert_eq!(pairs(&request), vec![("index", "1")]);
    assert_eq!(request.response, ResponseShape::Bytes);
    let typed = api.openrouter_video_content_with_type("job-abc", Some(255));
    assert_eq!(typed.path, "/agent-integrations/openrouter/videos/job-abc/content");
    assert_eq!(pairs(&typed), vec![("index", "255")]);
}

#[test]
fn video_content_omits_the_index_when_unset() {
    let http = HttpClient::new("https://api.example.test");
    let api = AgentIntegrationsApi::new(&http);
    let request = api.openrouter_video_content("job-abc", None);
    assert_eq!(request.path, "/agent-integrations/openrouter/videos/job-abc/content");
    assert!(request.query.is_empty());
}

#[test]
fn api_key_routes() {
    let http = HttpClient::new("https://api.example.test");
    let api = ApiKeysApi::new(&http);
    let list = api.list();
    assert_eq!((list.method, list.path.as_str(), list.has_body), (HttpMethod::Get, "/api-keys", false));
    let create = api.create();
    assert_eq!((create.method, create.path.as_str(), create.has_body), (HttpMethod::Post, "/api-keys", true));
    let revoke = api.revoke("key/1 2");
    assert_eq!(revoke.method, HttpMethod::Delete);
    assert_eq!(revoke.path, "/api-keys/key%2F1%202");
    assert_eq!(revoke.response, ResponseShape::Envelope);
}

#[test]
fn client_builds_urls_and_bearer_headers() {
    let http = HttpClient::new("https://api.example.test");
    assert_eq!(http.authorization(), None);
    let request = ApiKeysApi::new(&http).list();
    assert_eq!(http.url(&request), "https://api.example.test/api-keys");
    let http = http.with_token(Some("tok".into()));
    assert_eq!(http.authorization(), Some("Bearer tok".to_string()));
    assert_eq!(http.base_url(), "https://api.example.test");
}

#[test]
fn media_reference_builders() {
    let part = ContentPartImage::image_url("https://example.com/ref.png");
    assert_eq!(part.kind, "image_url");
    assert_eq!(part.image_url.url, "https://example.com/ref.png");
    let first = FrameImage::first_frame("https://example.com/first.png");
    assert_eq!((first.kind.as_str(), first.frame_type.as_str()), ("image_url", "first_frame"));
    assert_eq!(first.image_url.url, "https://example.com/first.png");
    let last = FrameImage::last_frame("https://example.com/last.png");
    assert_eq!((last.kind.as_str(), last.frame_type.as_str()), ("image_url", "last_frame"));
}
