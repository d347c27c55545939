use noah_desktop::json::{Json, JsonNumber};
use noah_desktop::llm::{
    context_summary_model, failed_answer, first_text_of, friendly_api_error, is_context_limit_error,
    choose_auth, load_auth, post_step, FailedPost, PostStep, os_context, retry_delay_secs, strip_markdown_fences, title_from_response, AuthMode,
    FailedAnswer, ResponseBlock, TITLE_MODEL,
};

fn from_value(v: &serde_json::Value) -> Json {
    match v {
        serde_json::Value::Null => Json::Null,
        serde_json::Value::Bool(b) => Json::Bool(*b),
        serde_json::Value::Number(n) => Json::Number(match (n.as_u64(), n.as_i64()) {
            (Some(u), _) => JsonNumber::PosInt(u),
            (None, Some(i)) => JsonNumber::NegInt(i),
            _ => JsonNumber::Float(n.to_string()),
        }),
        serde_json::Value::String(s) => Json::Str(s.clone()),
        serde_json::Value::Array(a) => Json::Array(a.iter().map(from_value).collect()),
        serde_json::Value::Object(o) => Json::Object(o.iter().map(|(k, x)| (k.clone(), from_value(x))).collect()),
    }
}

/// The JSON value a text holds, when it is JSON.
fn parse_json(text: &str) -> Option<Json> {
    serde_json::from_str::<serde_json::Value>(text).ok().map(|v| from_value(&v))
}

#[test]
fn test_friendly_api_error_401() {
    let msg = friendly_api_error(401, "");
    assert!(msg.contains("API key"), "401 should mention API key: {}", msg);
    assert!(msg.contains("Settings"), "401 should mention Settings: {}", msg);
}

#[test]
fn test_friendly_api_error_429() {
    let msg = friendly_api_error(429, "");
    assert!(
        msg.contains("Too many requests") || msg.contains("rate-limited"),
        "429 should mention rate limit: {}",
        msg
    );
}

#[test]
fn test_friendly_api_error_500() {
    let msg = friendly_api_error(500, "");
    assert!(
        msg.contains("temporary issues") || msg.contains("try again"),
        "500 should be friendly: {}",
        msg
    );
}

#[test]
fn test_friendly_api_error_502() {
    let msg = friendly_api_error(502, "");
    assert!(msg.contains("temporary issues"), "502 should be friendly: {}", msg);
}

#[test]
fn test_friendly_api_error_503() {
    let msg = friendly_api_error(503, "");
    assert!(msg.contains("temporary issues"), "503 should be friendly: {}", msg);
}

#[test]
fn test_friendly_api_error_529_overloaded() {
    let msg = friendly_api_error(529, "");
    assert!(msg.contains("overloaded"), "529 should mention overloaded: {}", msg);
}

#[test]
fn test_friendly_api_error_unknown_includes_status() {
    let msg = friendly_api_error(418, "brew coffee");
    assert!(msg.contains("418"), "Unknown error should include status code: {}", msg);
    assert!(msg.contains("brew coffee"), "Unknown error should include body: {}", msg);
    assert_eq!(msg, "Unexpected API error (418 I'm a teapot): brew coffee");
}

#[test]
fn test_friendly_api_error_403() {
    let msg = friendly_api_error(403, "");
    assert!(msg.contains("permission"), "403 should mention permission: {}", msg);
}

#[test]
fn test_no_raw_error_messages() {
    for status in [401u16, 403, 429, 500, 502, 503, 529] {
        let msg = friendly_api_error(status, "raw body");
        assert!(
            !msg.contains("Anthropic API error"),
            "Status {} should not show raw error: {}",
            status,
            msg
        );
    }
}

#[test]
fn test_is_context_limit_error_detects_context_window_failures() {
    assert!(is_context_limit_error(400, "prompt is too long for the model context window"));
    assert!(is_context_limit_error(413, "maximum context length exceeded"));
    assert!(!is_context_limit_error(400, "invalid request body"));
}

#[test]
fn context_limit_needs_the_status() {
    assert!(!is_context_limit_error(500, "context window"));
    assert!(is_context_limit_error(400, "Prompt Is Too Long"));
}

#[test]
fn test_strip_markdown_fences_plain_json() {
    let plain = r#"{"noteworthy": false, "headline": "", "detail": ""}"#;
    let cleaned = strip_markdown_fences(plain);
    assert_eq!(cleaned, plain);
}

fn noteworthy(text: &str) -> bool {
    match parse_json(text) {
        Some(v) => match v.get("noteworthy") {
            Some(Json::Bool(b)) => *b,
            _ => panic!("no noteworthy field"),
        },
        None => panic!("not JSON: {}", text),
    }
}

#[test]
fn test_strip_markdown_fences_bare_backticks() {
    let fenced = "```\n{\"noteworthy\": true, \"headline\": \"a\", \"detail\": \"b\"}\n```";
    let cleaned = strip_markdown_fences(fenced);
    assert!(noteworthy(&cleaned));
}

#[test]
fn test_strip_markdown_fences_with_whitespace() {
    let fenced = "  ```json\n{\"noteworthy\": false, \"headline\": \"\", \"detail\": \"\"}\n```  ";
    let cleaned = strip_markdown_fences(fenced);
    assert!(!noteworthy(&cleaned));
}

#[test]
fn test_context_summary_model_uses_haiku() {
    assert_eq!(context_summary_model(), TITLE_MODEL);
}

#[test]
fn test_client_set_and_check_api_key() {
    let auth = AuthMode::ApiKey(String::new());
    assert!(!auth.has_auth(false));
    let auth = AuthMode::ApiKey("sk-ant-test".to_string());
    assert!(auth.has_auth(false));
    assert!(AuthMode::ApiKey(String::new()).has_auth(true));
}

#[test]
fn auth_mode_names_and_urls() {
    let key = AuthMode::ApiKey("k".to_string());
    let proxy = AuthMode::Proxy { base_url: "https://p.io//".to_string(), token: "t".to_string() };
    assert_eq!(key.mode_name(), "api_key");
    assert_eq!(proxy.mode_name(), "proxy");
    assert_eq!(key.api_url(None), "https://api.anthropic.com/v1/messages");
    assert_eq!(proxy.api_url(None), "https://p.io/v1/messages");
    assert_eq!(key.api_url(Some("http://127.0.0.1:8082/")), "http://127.0.0.1:8082/v1/messages");
}

#[test]
fn retry_policy() {
    assert_eq!(failed_answer(429, "", 0), FailedAnswer::Retry(friendly_api_error(429, "")));
    assert_eq!(failed_answer(429, "", 3), FailedAnswer::Fail(friendly_api_error(429, "")));
    assert_eq!(failed_answer(401, "", 0), FailedAnswer::Fail(friendly_api_error(401, "")));
    assert_eq!(
        failed_answer(400, "prompt is too long", 0),
        FailedAnswer::Fail("Context limit exceeded: prompt is too long".to_string())
    );
    assert_eq!(retry_delay_secs(1), 1);
    assert_eq!(retry_delay_secs(2), 2);
    assert_eq!(retry_delay_secs(3), 4);
}

#[test]
fn response_texts() {
    let blocks = vec![
        ResponseBlock::ToolUse { id: "1".into(), name: "x".into(), input: Json::Null },
        ResponseBlock::Text { text: "  Title here \n".into() },
    ];
    assert_eq!(first_text_of(&blocks).as_deref(), Some("Title here"));
    assert_eq!(title_from_response(&blocks, "ignored"), "Title here");
    let long = "é".repeat(80);
    assert_eq!(title_from_response(&Vec::new(), &long), "é".repeat(60));
}

#[test]
fn load_auth_prefers_proxy_then_key_file_then_env() {
    let proxy = parse_json(r#"{"base_url":"https://p.io","token":"tk"}"#).unwrap();
    match choose_auth(Some(&proxy), Some("file-key"), Some("env")) {
        AuthMode::Proxy { base_url, token } => {
            assert_eq!(base_url, "https://p.io");
            assert_eq!(token, "tk");
        }
        _ => panic!("expected proxy"),
    }
    let empty_token = parse_json(r#"{"base_url":"https://p.io","token":""}"#).unwrap();
    assert!(matches!(choose_auth(Some(&empty_token), Some(" k1 \n"), None), AuthMode::ApiKey(k) if k == "k1"));
    assert!(matches!(choose_auth(None, Some("   "), Some("env-key")), AuthMode::ApiKey(k) if k == "env-key"));
    assert!(matches!(choose_auth(None, None, None), AuthMode::ApiKey(k) if k.is_empty()));
    match load_auth(Some(r#"{"base_url":"https://p.io","token":"tk"}"#), Some("file-key"), None) {
        AuthMode::Proxy { base_url, token } => {
            assert_eq!(base_url, "https://p.io");
            assert_eq!(token, "tk");
        }
        _ => panic!("expected proxy"),
    }
    assert!(matches!(load_auth(Some("not json"), Some("k2"), None), AuthMode::ApiKey(k) if k == "k2"));
    assert!(matches!(load_auth(Some(r#"{"token":"tk"}"#), None, Some("e")), AuthMode::ApiKey(k) if k == "e"));
    assert_eq!(os_context("mac", ""), "mac");
    assert_eq!(os_context("mac", "snap"), "mac\nsnap");
}

#[test]
fn request_loop_steps() {
    let down = FailedPost::Unreachable { timed_out: false };
    assert_eq!(
        post_step(&down, 0),
        PostStep::Retry { error: "Can't reach the model service — check your internet connection.".to_string(), wait_secs: 1 }
    );
    assert_eq!(
        post_step(&FailedPost::Unreachable { timed_out: true }, 3),
        PostStep::Fail("The model service is taking too long to respond. Please try again.".to_string())
    );
    let busy = FailedPost::Answer { status: 529, body: "busy".to_string() };
    assert!(matches!(post_step(&busy, 1), PostStep::Retry { wait_secs: 2, .. }));
    assert!(matches!(post_step(&busy, 2), PostStep::Retry { wait_secs: 4, .. }));
    assert_eq!(
        post_step(&busy, 3),
        PostStep::Fail("The model service is currently overloaded. Please try again in a few minutes.".to_string())
    );
    let long = FailedPost::Answer { status: 400, body: "prompt is too long".to_string() };
    assert_eq!(post_step(&long, 0), PostStep::Fail("Context limit exceeded: prompt is too long".to_string()));
    let bad = FailedPost::Answer { status: 401, body: "x".to_string() };
    assert_eq!(
        post_step(&bad, 0),
        PostStep::Fail("Your API key is invalid or has been revoked. Please check it in Settings.".to_string())
    );
}

#[test]
fn friendly_errors_never_show_the_raw_text() {
    for status in [401u16, 403, 429, 500, 502, 503, 529] {
        let a = friendly_api_error(status, "raw body");
        assert_eq!(a, friendly_api_error(status, "other body"));
        assert!(!a.contains("Anthropic API error"));
    }
    let m = friendly_api_error(418, "brew coffee");
    assert!(m.contains("418") && m.ends_with("brew coffee"));
}
