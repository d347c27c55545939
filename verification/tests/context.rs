use noah_desktop::context::{
    compression_split, estimate_messages_tokens, estimate_tokens, fallback_context_summary,
    render_message_for_summary, summarized_transcript, summary_message,
};
use noah_desktop::json::Json;
use noah_desktop::llm::{ContentBlock, Message, MessageContent};
use noah_desktop::sessions::SessionStore;

fn text(role: &str, t: &str) -> Message {
    Message { role: role.to_string(), content: MessageContent::Text(t.to_string()) }
}

#[test]
fn test_fallback_context_summary_keeps_existing_and_excerpt() {
    let summary = fallback_context_summary(
        Some("## Current state\nDNS issue isolated"),
        "User: collected router logs\nAssistant: asked for modem reboot",
    );

    assert!(summary.contains("DNS issue isolated"));
    assert!(summary.contains("Older session history was trimmed"));
    assert!(summary.contains("collected router logs"));
}

#[test]
fn fallback_summary_keeps_only_the_last_excerpt_chars() {
    let history = format!("{}{}", "q".repeat(100), "b".repeat(1600));
    let summary = fallback_context_summary(None, &history);
    assert!(summary.starts_with("## Pending / watch-outs"));
    assert!(summary.ends_with(&format!("## Recent older context excerpt\n{}", "b".repeat(1600))));
    assert!(!summary.contains('q'));
    let blank = fallback_context_summary(Some("   "), "  ");
    assert_eq!(
        blank,
        "## Pending / watch-outs\n- Older session history was trimmed after automatic compression failed. Use the most recent verbatim turns for exact details."
    );
}

#[test]
fn test_messages_for_llm_prepends_compressed_summary() {
    let m = summary_message(Some("## Current state\nDNS issue isolated")).unwrap();
    assert_eq!(m.role, "assistant");
    match &m.content {
        MessageContent::Text(t) => {
            assert!(t.contains("Compressed session context"));
            assert!(t.contains("DNS issue isolated"));
        }
        _ => panic!("expected summary text"),
    }
    assert!(summary_message(Some("  \n")).is_none());
    assert!(summary_message(None).is_none());
}

#[test]
fn test_summarized_transcript_truncates_large_tool_output() {
    let large_output = "x".repeat(2_000);
    let transcript = summarized_transcript(
        &vec![Message {
            role: "user".to_string(),
            content: MessageContent::Blocks(vec![ContentBlock::ToolResult {
                tool_use_id: "tool-1".to_string(),
                content: large_output,
                is_error: None,
            }]),
        }],
        10_000,
    );

    assert!(transcript.contains("Tool result:"));
    assert!(transcript.len() < 1_700);
    assert!(transcript.ends_with("..."));
}

#[test]
fn transcript_keeps_the_newest_messages_that_fit() {
    let msgs = vec![text("user", "first"), text("assistant", "second"), text("user", "third")];
    // "Assistant: second" (17) + "User: third" (11) fit in 30; "User: first" does not.
    assert_eq!(summarized_transcript(&msgs, 30), "Assistant: second\n\nUser: third");
    assert_eq!(summarized_transcript(&msgs, 5), "");
}

#[test]
fn test_estimate_messages_tokens_grows_with_content() {
    let short = vec![text("user", "short")];
    let long = vec![text("user", &"x".repeat(4_000))];
    assert!(estimate_messages_tokens(&long) > estimate_messages_tokens(&short));
    // "User: short" is 11 characters: 3 tokens, plus 8 for the role.
    assert_eq!(estimate_messages_tokens(&short), 11);
    assert_eq!(estimate_tokens(""), 0);
    assert_eq!(estimate_tokens("abcd"), 1);
    assert_eq!(estimate_tokens("abcde"), 2);
}

#[test]
fn render_blocks_and_roles() {
    let m = Message {
        role: "tool".to_string(),
        content: MessageContent::Blocks(vec![
            ContentBlock::Text { text: "hi".to_string() },
            ContentBlock::ToolUse {
                id: "1".to_string(),
                name: "ping".to_string(),
                input: Json::Object(vec![("host".to_string(), Json::Str("a".to_string()))]),
            },
            ContentBlock::ToolResult {
                tool_use_id: "1".to_string(),
                content: "bad".to_string(),
                is_error: Some(true),
            },
        ]),
    };
    assert_eq!(
        render_message_for_summary(&m),
        "tool: hi\nTool call `ping` with input {\"host\":\"a\"}\nTool error: bad"
    );
}

#[test]
fn compression_thresholds() {
    assert_eq!(compression_split(6, 1_000_000, false), None);
    assert_eq!(compression_split(10, 127_999, false), None);
    assert_eq!(compression_split(10, 128_000, false), Some(4));
    assert_eq!(compression_split(10, 72_000, true), Some(6));
    assert_eq!(compression_split(10, 71_999, true), None);
}

#[test]
fn test_create_session_returns_unique_ids() {
    let mut store = SessionStore::new();
    let a = store.create_session("2026-01-01T00:00:00Z".to_string());
    let b = store.create_session("2026-01-01T00:00:00Z".to_string());
    assert_ne!(a, b);
    assert_eq!(a.len(), 36);
}

#[test]
fn test_get_session_works() {
    let mut store = SessionStore::new();
    let id = store.create_session("t".to_string());
    let s = store.get_session(&id).unwrap();
    assert_eq!(s.id, id);
    assert!(s.messages.is_empty());
    assert_eq!(s.mode, "default");
    assert!(store.get_session("nope").is_none());
}

#[test]
fn test_end_session_removes_it() {
    let mut store = SessionStore::new();
    let id = store.create_session("t".to_string());
    assert!(store.end_session(&id));
    assert!(store.get_session(&id).is_none());
    assert!(!store.end_session(&id));
}

#[test]
fn secrets_locale_mode_and_history() {
    let mut store = SessionStore::new();
    let id = store.create_session("t".to_string());
    store.store_secret(&id, "wifi", "hunter2");
    store.store_secret(&id, "wifi", "hunter3");
    store.store_secret(&id, "vpn", "x");
    assert_eq!(store.get_secret(&id, "wifi").as_deref(), Some("hunter3"));
    assert_eq!(store.get_secret(&id, "vpn").as_deref(), Some("x"));
    assert_eq!(store.get_secret(&id, "none"), None);
    store.set_locale(&id, "zh");
    assert_eq!(store.get_locale(&id).as_deref(), Some("zh"));
    store.set_mode(&id, "learn");
    assert_eq!(store.get_session(&id).unwrap().mode, "learn");
    for i in 0..8 {
        store.push_message(&id, text("user", &format!("m{}", i)));
    }
    store.compress_history(&id, 5, "summary".to_string());
    let s = store.get_session(&id).unwrap();
    assert_eq!(s.messages.len(), 3);
    assert_eq!(s.compressed_summary.as_deref(), Some("summary"));
    // Unknown sessions are left alone.
    store.store_secret("ghost", "a", "b");
    assert_eq!(store.get_secret("ghost", "a"), None);
}
