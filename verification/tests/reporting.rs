use noah_desktop::consumer::{device_id_from, session_file_text, FileRead};
use noah_desktop::dashboard::request_failed_message;
use noah_desktop::health::removed_from_fleet;
use noah_desktop::json::{Json, JsonNumber};
use noah_desktop::llm::{proxy_config_json, summary_from_response, DiagnosticAnalysis, ResponseBlock};
use noah_desktop::mobile::{pair_response, triage_response, PairedDevice, PairingState, DESKTOP_NAME};
use noah_desktop::proactive::{tool_section, worth_showing};
use noah_desktop::reports::{feedback_context, session_info};
use noah_desktop::sessions::SessionStore;
use noah_desktop::tool_output::{cache_not_found_message, win_move_command, win_size_command};
use noah_desktop::turn::cancelled_result;
use noah_desktop::llm::ContentBlock;

fn to_value(j: &Json) -> serde_json::Value {
    match j {
        Json::Null => serde_json::Value::Null,
        Json::Bool(b) => serde_json::Value::Bool(*b),
        Json::Number(JsonNumber::PosInt(u)) => serde_json::Value::from(*u),
        Json::Number(JsonNumber::NegInt(i)) => serde_json::Value::from(*i),
        Json::Number(JsonNumber::Float(s)) => serde_json::from_str(s).unwrap(),
        Json::Str(s) => serde_json::Value::String(s.clone()),
        Json::Array(a) => serde_json::Value::Array(a.iter().map(to_value).collect()),
        Json::Object(o) => serde_json::Value::Object(o.iter().map(|(k, x)| (k.clone(), to_value(x))).collect()),
    }
}

/// The compact JSON text of a value.
fn json_to_string(j: &Json) -> String {
    to_value(j).to_string()
}

#[test]
fn fleet_removal_is_recognised_in_errors() {
    assert!(removed_from_fleet("Checkin failed: 410 Device removed from fleet"));
    assert!(!removed_from_fleet("Checkin failed: 500 internal"));
}

#[test]
fn session_info_counts_messages() {
    let mut store = SessionStore::new();
    let id = store.create_session("2024-05-01T10:00:00Z".to_string());
    let info = session_info(store.get_session(&id).unwrap());
    assert_eq!(info.id, id);
    assert_eq!(info.created_at, "2024-05-01T10:00:00Z");
    assert_eq!(info.message_count, 0);
}

#[test]
fn feedback_context_keeps_traces_in_order() {
    let ctx = feedback_context(
        "1.0.0".to_string(),
        "linux".to_string(),
        vec![
            ("t1".to_string(), "req1".to_string(), "resp1".to_string()),
            ("t2".to_string(), "req2".to_string(), "resp2".to_string()),
        ],
    );
    assert_eq!(ctx.version, "1.0.0");
    assert_eq!(ctx.os, "linux");
    assert_eq!(ctx.traces.len(), 2);
    assert_eq!(ctx.traces[1].timestamp, "t2");
    assert_eq!(ctx.traces[1].request, "req2");
    assert_eq!(ctx.traces[1].response, "resp2");
}

#[test]
fn device_id_file_reads() {
    assert_eq!(device_id_from(&FileRead::Contents("  abc-123\n".to_string())), Ok(Some("abc-123".to_string())));
    assert_eq!(device_id_from(&FileRead::Contents("   ".to_string())), Ok(None));
    assert_eq!(device_id_from(&FileRead::NotFound), Ok(None));
    assert_eq!(
        device_id_from(&FileRead::Failed("permission denied".to_string())),
        Err("read device_id: permission denied".to_string())
    );
    assert_eq!(session_file_text("  tok \n"), "tok");
}

#[test]
fn dashboard_failures_name_the_request() {
    assert_eq!(request_failed_message("Enroll", "bad token"), "Enroll failed: bad token");
}

#[test]
fn pairing_answers() {
    let device = PairedDevice {
        device_id: "d1".to_string(),
        secret: "s1".to_string(),
        device_name: "Phone".to_string(),
        paired_at: "now".to_string(),
    };
    let r = pair_response(&device);
    assert_eq!(r.device_id, "d1");
    assert_eq!(r.secret, "s1");
    assert_eq!(r.desktop_name, DESKTOP_NAME);
    let t = triage_response("sess".to_string());
    assert_eq!(t.session_id, "sess");
    assert_eq!(t.status, "processing");
    let mut state = PairingState::new();
    state.paired_device = Some(device);
    state.failed_attempts = 2;
    state.unpair();
    assert!(state.paired_device.is_none());
    assert_eq!(state.failed_attempts, 2);
}

#[test]
fn proactive_sections_and_analysis() {
    assert_eq!(tool_section("disk", "ok"), "--- disk ---\nok\n\n");
    assert!(!worth_showing(&DiagnosticAnalysis::nothing_noteworthy()));
    let a = DiagnosticAnalysis { noteworthy: true, headline: "Disk almost full".to_string(), detail: String::new() };
    assert!(worth_showing(&a));
    let b = DiagnosticAnalysis { noteworthy: true, headline: String::new(), detail: "x".to_string() };
    assert!(!worth_showing(&b));
}

#[test]
fn session_summary_from_response() {
    let blocks = vec![ResponseBlock::Text { text: "Fixed the printer.".to_string() }];
    assert_eq!(summary_from_response(&blocks), "Fixed the printer.");
    assert_eq!(summary_from_response(&Vec::new()), "Session completed.");
}

#[test]
fn proxy_config_is_saved_as_json() {
    let j = proxy_config_json("https://proxy.example", "tok");
    assert_eq!(json_to_string(&j), r#"{"base_url":"https://proxy.example","token":"tok"}"#);
}

#[test]
fn windows_cache_commands() {
    assert_eq!(
        win_size_command("C:\\A"),
        "$size = (Get-ChildItem 'C:\\A' -Recurse -ErrorAction SilentlyContinue | Measure-Object -Property Length -Sum -ErrorAction SilentlyContinue).Sum; '{0:N2} MB' -f ($size / 1MB)"
    );
    assert_eq!(win_move_command("C:\\A", "C:\\B"), "Move-Item -Path 'C:\\A' -Destination 'C:\\B' -Force");
    assert_eq!(cache_not_found_message("C:\\A"), "App data directory not found: C:\\A");
}

#[test]
fn cancelled_calls_are_answered_as_errors() {
    match cancelled_result("call_1".to_string()) {
        ContentBlock::ToolResult { tool_use_id, content, is_error } => {
            assert_eq!(tool_use_id, "call_1");
            assert_eq!(content, "Cancelled by user.");
            assert_eq!(is_error, Some(true));
        }
        _ => panic!("expected a tool result"),
    }
}

#[test]
fn analysis_prompt_names_the_category() {
    let p = noah_desktop::llm::analysis_prompt("disk");
    assert!(p.starts_with("You are a conservative IT health monitor analyzing disk diagnostics.\nOnly flag genuinely concerning issues:\n- Disk usage >90%"));
    assert!(p.contains("{\"noteworthy\": true/false, \"headline\": \"~60 char summary\", \"detail\": \"1-2 sentence explanation\"}\n\n"));
    assert!(p.ends_with("If nothing is concerning, set noteworthy to false with empty headline and detail."));
}

#[test]
fn analysis_text_strips_fences() {
    let blocks = vec![ResponseBlock::Text {
        text: "  ```json\n{\"noteworthy\": false}\n```  ".to_string(),
    }];
    assert_eq!(noah_desktop::llm::analysis_text(&blocks), "{\"noteworthy\": false}");
    assert_eq!(noah_desktop::llm::analysis_text(&Vec::new()), "");
}
