use gpt_client::config::GptConfig;
use gpt_client::error::GptError;
use gpt_client::models::{Choice, GptResponse, ResponseMessage};
use gpt_client::{answer_from, api_error, is_success_status, GptClient};

fn client_with(key: &str) -> GptClient {
    GptClient::builder()
        .api_url("https://example.test/chat".to_string())
        .api_key(key.to_string())
        .build()
        .unwrap()
}

fn message_choice(content: &str) -> Choice {
    Choice {
        message: Some(ResponseMessage { content: content.to_string(), role: None }),
        delta: None,
        finish_reason: None,
        index: 0,
    }
}

#[test]
fn build_requires_url_then_key() {
    let no_url = GptClient::builder().api_key("k".to_string()).build();
    assert_eq!(no_url.err(), Some(GptError::ConfigError("API URL is required".to_string())));
    let no_key = GptClient::builder().api_url("u".to_string()).build();
    assert_eq!(no_key.err(), Some(GptError::ConfigError("API key is required".to_string())));
    let neither = GptClient::builder().build();
    assert_eq!(neither.err(), Some(GptError::ConfigError("API URL is required".to_string())));
}

#[test]
fn build_uses_default_config_when_none_given() {
    let c = client_with("k");
    assert_eq!(c.api_url(), "https://example.test/chat");
    assert_eq!(*c.config(), GptConfig::default());
}

#[test]
fn headers_for_plain_and_streaming_requests() {
    let c = client_with("secret-key");
    let plain = c.build_headers(false).unwrap();
    assert_eq!(
        plain,
        vec![
            ("api-key".to_string(), "secret-key".to_string()),
            ("Content-Type".to_string(), "application/json".to_string()),
        ]
    );
    let streaming = c.build_headers(true).unwrap();
    assert_eq!(streaming.len(), 3);
    assert_eq!(streaming[2], ("Accept".to_string(), "text/event-stream".to_string()));
}

#[test]
fn credential_with_control_character_is_refused() {
    assert_eq!(client_with("bad\nkey").build_headers(false), Err(GptError::HeaderError));
    assert_eq!(client_with("bad\u{7f}").build_headers(true), Err(GptError::HeaderError));
    assert!(client_with("tab\tand é").build_headers(false).is_ok());
}

#[test]
fn request_without_stop_keeps_none() {
    let c = client_with("k");
    let r = c.build_request("hi", false);
    assert_eq!(r.messages.len(), 1);
    assert_eq!(r.messages[0].role, "user");
    assert_eq!(r.messages[0].content, "hi");
    assert_eq!(r.stop, None);
    assert!(!r.stream);
    assert!(c.build_request("hi", true).stream);
}

#[test]
fn request_with_stop_keeps_order() {
    let config = GptConfig::builder().stop(vec!["x".to_string(), "y".to_string()]).build();
    let c = GptClient::builder()
        .api_url("u".to_string())
        .api_key("k".to_string())
        .config(config)
        .build()
        .unwrap();
    let r = c.build_request("hi", false);
    assert_eq!(r.stop, Some(vec!["x".to_string(), "y".to_string()]));
}

#[test]
fn empty_choices_is_a_parse_error() {
    let r = answer_from(Ok(GptResponse { id: None, choices: vec![] }));
    assert_eq!(r, Err(GptError::ParseError("No response content available".to_string())));
}

#[test]
fn choice_without_message_is_a_parse_error() {
    let choice = Choice { message: None, delta: None, finish_reason: None, index: 0 };
    let r = answer_from(Ok(GptResponse { id: Some("x".to_string()), choices: vec![choice] }));
    assert_eq!(r, Err(GptError::ParseError("No response content available".to_string())));
}

#[test]
fn undecodable_body_is_a_parse_error() {
    let r = answer_from(Err("expected value at line 1 column 1".to_string()));
    assert_eq!(r, Err(GptError::ParseError("expected value at line 1 column 1".to_string())));
}

#[test]
fn configured_client_answers_hello() {
    let config = GptConfig::builder().temperature(800).max_tokens(1000).build();
    let c = GptClient::builder()
        .api_url("http://localhost/mock".to_string())
        .api_key("k".to_string())
        .config(config)
        .build()
        .unwrap();
    let req = c.build_request("hi", false);
    assert_eq!(req.temperature, 800);
    assert_eq!(req.max_tokens, 1000);
    assert_eq!(req.messages[0].content, "hi");
    assert!(is_success_status(200));
    let body = GptResponse { id: None, choices: vec![message_choice("hello")] };
    assert_eq!(answer_from(Ok(body)), Ok("hello".to_string()));
}

#[test]
fn first_choice_wins() {
    let body = GptResponse { id: None, choices: vec![message_choice("one"), message_choice("two")] };
    assert_eq!(answer_from(Ok(body)), Ok("one".to_string()));
}

#[test]
fn status_classes() {
    assert!(!is_success_status(199));
    assert!(is_success_status(200));
    assert!(is_success_status(299));
    assert!(!is_success_status(300));
    assert!(!is_success_status(404));
}

#[test]
fn api_error_carries_status_and_body() {
    assert_eq!(
        api_error(429, Some("slow down".to_string())),
        GptError::ApiError { status_code: 429, message: "slow down".to_string() }
    );
    assert_eq!(
        api_error(500, None),
        GptError::ApiError { status_code: 500, message: "Unknown error".to_string() }
    );
}
