use just_llm_client::transport::{bearer_authorization, is_success_status};
use just_llm_client::transport::{endpoint_url, ensure_event_stream, ContentType, TransportError};

#[test]
fn endpoint_url_resolves_paths_correctly() {
    let cases = [
        ("https://api.example.com/v1", "chat/completions", "https://api.example.com/v1/chat/completions"),
        ("https://api.example.com/v1/", "chat/completions", "https://api.example.com/v1/chat/completions"),
        ("https://api.example.com/v1", "/chat/completions", "https://api.example.com/v1/chat/completions"),
        ("https://api.deepseek.com", "chat/completions", "https://api.deepseek.com/chat/completions"),
        (
            "https://proxy.example.com/openai/v1",
            "chat/completions",
            "https://proxy.example.com/openai/v1/chat/completions",
        ),
    ];

    for (base, path, expected) in cases {
        assert_eq!(endpoint_url(base, path).unwrap(), expected, "endpoint_url({base:?}, {path:?})");
    }
}

#[test]
fn endpoint_url_rejects_invalid_base() {
    assert!(endpoint_url("not a url", "chat/completions").is_err());
}

#[test]
fn endpoint_url_error_names_the_problem() {
    assert_eq!(
        endpoint_url("not a url", "x"),
        Err(TransportError::InvalidConfig("invalid base URL"))
    );
    assert_eq!(
        endpoint_url("not a url", "x").unwrap_err().message(),
        "invalid configuration: invalid base URL"
    );
    assert_eq!(
        endpoint_url("https://h.example/a/b", "//c").unwrap(),
        "https://h.example/a/b/c"
    );
}

#[test]
fn event_stream_content_type_is_checked() {
    assert!(ensure_event_stream(&ContentType::Value("text/event-stream; charset=utf-8".to_owned())).is_ok());
    assert_eq!(
        ensure_event_stream(&ContentType::Value("application/json".to_owned())),
        Err(TransportError::InvalidResponse(
            "expected text/event-stream response, got application/json".to_owned()
        ))
    );
    assert_eq!(
        ensure_event_stream(&ContentType::Missing),
        Err(TransportError::InvalidResponse("streaming response was missing content-type".to_owned()))
    );
    assert_eq!(
        ensure_event_stream(&ContentType::NotUtf8).unwrap_err().message(),
        "invalid response: streaming response content-type was not valid UTF-8"
    );
}

#[test]
fn transport_error_texts() {
    assert_eq!(TransportError::HttpStatus { status: 429, body: "x".to_owned() }.message(), "api returned 429");
    assert_eq!(TransportError::BodyTooLarge { limit: 1024 }.message(), "response body exceeded 1024-byte limit");
}

#[test]
fn bearer_header_rejects_control_characters() {
    assert_eq!(bearer_authorization("sk-123"), Ok("Bearer sk-123".to_owned()));
    assert_eq!(
        bearer_authorization("bad\nkey"),
        Err(TransportError::InvalidConfig("api key contains invalid header characters"))
    );
    assert!(bearer_authorization("tab\tok").is_ok());
    assert!(is_success_status(204));
    assert!(!is_success_status(301));
}
