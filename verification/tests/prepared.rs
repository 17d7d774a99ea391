use just_llm_client::common_prepared::{PreparedChatRequest as CommonPrepared, PreparedRequestError};
use just_llm_client::prepared::PreparedChatRequest;
use just_llm_client::types::{TokenEstimate, TokenEstimateKind};

#[test]
fn body_must_look_like_a_chat_request() {
    assert_eq!(CommonPrepared::from_request_body("[1]"), Err(PreparedRequestError::NotJsonObject));
    assert_eq!(CommonPrepared::from_request_body("{"), Err(PreparedRequestError::NotJsonObject));
    assert_eq!(
        CommonPrepared::from_request_body("{\"messages\":[]}"),
        Err(PreparedRequestError::MissingModelField)
    );
    assert_eq!(
        CommonPrepared::from_request_body("{\"model\":\"m\",\"messages\":{}}"),
        Err(PreparedRequestError::MissingMessagesArray)
    );
    let p = CommonPrepared::from_request_body("{ \"model\": \"m\", \"messages\": [1, 2], \"stream\": true }").unwrap();
    assert_eq!(p.model(), Some("m".to_owned()));
    assert_eq!(p.message_count(), 2);
    assert!(p.has_stream());
    assert_eq!(p.request_body_text(), "{\"messages\":[1,2],\"model\":\"m\",\"stream\":true}");
    assert!(p.headers().is_empty());
    let p = p.with_headers(vec![("x-trace".to_owned(), "1".to_owned())]);
    assert_eq!(p.headers().len(), 1);
}

#[test]
fn prepared_requests_are_bound_to_their_backend() {
    let p = PreparedChatRequest::from_request_body("deepseek", "{\"model\":\"m\",\"messages\":[]}").unwrap();
    assert_eq!(p.backend_id(), "deepseek");
    assert!(p.ensure_backend("deepseek").is_ok());
    assert_eq!(
        p.ensure_backend("openai-compatible").unwrap_err().message(),
        "invalid request: prepared request for backend 'deepseek' cannot be used by 'openai-compatible'"
    );
    assert_eq!(p.message_count(), 0);
    assert!(!p.has_stream());
    assert_eq!(p.model(), Some("m".to_owned()));
}

#[test]
fn approximate_estimate_runs_on_the_canonical_text() {
    let p = PreparedChatRequest::from_request_body("local", "{\"model\": \"m\", \"messages\": []}").unwrap();
    let e = TokenEstimate::approximate_from_prepared_text(&p, |text: &str| text.len() as u32, "chars");
    assert_eq!(e.prompt_tokens, "{\"messages\":[],\"model\":\"m\"}".len() as u32);
    assert_eq!(e.kind, TokenEstimateKind::Approximate);
    assert_eq!(e.total_tokens, None);
    assert_eq!(e.source.as_deref(), Some("chars"));
}
