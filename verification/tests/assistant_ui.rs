use noah_desktop::assistant_ui::{
    parse_assistant_ui, ui_payload_of_value, AssistantActionType, AssistantUiPayload,
};
use noah_desktop::json::Json;

#[test]
fn parses_card_ui() {
    let text = "[SITUATION]\nA\n[PLAN]\nB\n[ACTION:Do it]";
    let ui = parse_assistant_ui(text);
    match ui {
        Some(AssistantUiPayload::Spa(card)) => {
            assert_eq!(card.situation, "A");
            assert_eq!(card.plan, Some("B".to_string()));
            assert_eq!(card.action.label, "Do it");
            assert_eq!(card.action.action_type, AssistantActionType::RunStep);
        }
        _ => panic!("expected card ui"),
    }
}

#[test]
fn parses_done_ui() {
    let text = "[DONE]\nAll set";
    let ui = parse_assistant_ui(text);
    match ui {
        Some(AssistantUiPayload::Done(done)) => assert_eq!(done.summary, "All set"),
        _ => panic!("expected done ui"),
    }
}

#[test]
fn parses_json_card_ui() {
    let text = r#"{"kind":"spa","situation":"CPU is high","plan":"Stop heavy app","action":{"label":"Stop App","type":"RUN_STEP"}}"#;
    let ui = parse_assistant_ui(text);
    match ui {
        Some(AssistantUiPayload::Spa(card)) => {
            assert_eq!(card.action.label, "Stop App");
            assert_eq!(card.situation, "CPU is high");
        }
        _ => panic!("expected json card ui"),
    }
}

#[test]
fn parses_json_card_with_prefixed_text() {
    let text = r#"I ran diagnostics.
{
  "kind":"spa",
  "situation":"CPU is high",
  "plan":"Stop heavy app",
  "action":{"label":"Stop App","type":"RUN_STEP"}
}"#;
    let ui = parse_assistant_ui(text);
    match ui {
        Some(AssistantUiPayload::Spa(card)) => assert_eq!(card.action.label, "Stop App"),
        _ => panic!("expected json card ui with preface"),
    }
}

// ── Real-world database message patterns ──

#[test]
fn parses_real_json_done_with_markdown() {
    let text = r###"{"kind":"done","summary":"## Wi-Fi Issue Resolved\n\nYour Wi-Fi connection is **rock solid**:\n- **Strong 6GHz**: -52 dBm\n- **High speed**: 1.7 Gbps"}"###;
    let ui = parse_assistant_ui(text);
    match ui {
        Some(AssistantUiPayload::Done(done)) => {
            assert!(done.summary.contains("Wi-Fi Issue Resolved"));
            assert!(done.summary.contains("rock solid"));
        }
        _ => panic!("expected done ui, got {:?}", ui),
    }
}

// ── Regression: structured findings + steps must round-trip ──
//
// History: parse_assistant_ui_json's spa branch only extracted
// situation/plan/action/progress/qr_data, silently dropping any
// findings[] and steps[] the model emitted. The desktop card then
// rendered as a bare situation regardless of how rich the model's
// tool call was. Symptom: `[noah-spa-shape] spa_bare findings=0
// steps=0` in devtools console even when the model populated them.
//
// These tests pin the contract: any structured ui_spa JSON that
// contains findings/steps MUST surface them in the parsed struct
// so the frontend renders FindingsGrid + StepsList.

#[test]
fn spa_json_preserves_findings() {
    let text = r###"{
        "kind":"spa",
        "situation":"DNS is slow",
        "findings":[
            {"label":"DNS Resolution","value":"34ms","tone":"warn","sub":"slower than usual"},
            {"label":"Internet Ping","value":"19ms","tone":"good","sub":"avg, 3 packets"}
        ],
        "action":{"label":"Fix DNS","type":"RUN_STEP"}
    }"###;
    let ui = parse_assistant_ui(text);
    match ui {
        Some(AssistantUiPayload::Spa(card)) => {
            let findings = card.findings.expect("findings should round-trip");
            assert_eq!(findings.len(), 2);
            assert_eq!(findings[0].label, "DNS Resolution");
            assert_eq!(findings[0].value, "34ms");
            assert_eq!(findings[0].tone.as_deref(), Some("warn"));
            assert_eq!(findings[0].sub.as_deref(), Some("slower than usual"));
            assert_eq!(findings[1].label, "Internet Ping");
        }
        _ => panic!("expected spa ui, got {:?}", ui),
    }
}

#[test]
fn spa_json_preserves_steps() {
    let text = r###"{
        "kind":"spa",
        "situation":"DNS is slow",
        "steps":[
            {"label":"Flush DNS cache","detail":"Clear cached DNS records"},
            {"label":"Re-test DNS performance","status":"pending","detail":"Verify improvement"}
        ],
        "action":{"label":"Fix DNS","type":"RUN_STEP"}
    }"###;
    let ui = parse_assistant_ui(text);
    match ui {
        Some(AssistantUiPayload::Spa(card)) => {
            let steps = card.steps.expect("steps should round-trip");
            assert_eq!(steps.len(), 2);
            assert_eq!(steps[0].label, "Flush DNS cache");
            assert_eq!(steps[0].detail.as_deref(), Some("Clear cached DNS records"));
            assert_eq!(steps[1].label, "Re-test DNS performance");
            assert_eq!(steps[1].status.as_deref(), Some("pending"));
        }
        _ => panic!("expected spa ui, got {:?}", ui),
    }
}

#[test]
fn spa_json_with_both_findings_and_steps_renders_both() {
    // The exact shape that once lost its fields — model emitted
    // a rich SPA, the parser dropped the structured fields.
    let text = r###"{
        "kind":"spa",
        "situation":"Internet is slow due to high latency.",
        "findings":[
            {"label":"Internet Ping","value":"175ms","tone":"bad","sub":"avg, highly variable"},
            {"label":"DNS Lookup","value":"219ms","tone":"warn","sub":"slower than normal"},
            {"label":"HTTP to Google","value":"438ms","tone":"warn","sub":"total response time"},
            {"label":"Wi-Fi","value":"Connected","sub":"192.168.86.27"}
        ],
        "steps":[
            {"label":"Power-cycle your router","detail":"Unplug for 10 seconds, then plug back in"},
            {"label":"Restart Wi-Fi on your Mac","detail":"Turn off and back on in System Settings"},
            {"label":"Re-test internet speed","detail":"Verify improvement with speed test"}
        ],
        "action":{"label":"Fix it","type":"RUN_STEP"}
    }"###;
    let ui = parse_assistant_ui(text);
    match ui {
        Some(AssistantUiPayload::Spa(card)) => {
            assert_eq!(
                card.findings.as_ref().map(|f| f.len()),
                Some(4),
                "findings array dropped or wrong length",
            );
            assert_eq!(
                card.steps.as_ref().map(|s| s.len()),
                Some(3),
                "steps array dropped or wrong length",
            );
            assert_eq!(card.action.label, "Fix it");
        }
        _ => panic!("expected spa ui, got {:?}", ui),
    }
}

#[test]
fn spa_json_without_findings_or_steps_is_still_valid() {
    // Bare SPA (some model responses legitimately have no diagnostics
    // to report) — both fields should parse as None, NOT Some(empty).
    let text = r###"{
        "kind":"spa",
        "situation":"Restart needed.",
        "action":{"label":"Restart","type":"RUN_STEP"}
    }"###;
    let ui = parse_assistant_ui(text);
    match ui {
        Some(AssistantUiPayload::Spa(card)) => {
            assert!(card.findings.is_none(), "bare SPA should have no findings");
            assert!(card.steps.is_none(), "bare SPA should have no steps");
        }
        _ => panic!("expected spa ui, got {:?}", ui),
    }
}

#[test]
fn parses_real_json_spa_run_step() {
    let text = r###"{"action":{"label":"Fix Wi-Fi stability","type":"RUN_STEP"},"kind":"spa","plan":"I'll flush the DNS cache to clear any connection hiccups.","situation":"Your Wi-Fi is actually **connected and stable**."}"###;
    let ui = parse_assistant_ui(text);
    match ui {
        Some(AssistantUiPayload::Spa(card)) => {
            assert_eq!(card.action.label, "Fix Wi-Fi stability");
            assert_eq!(card.action.action_type, AssistantActionType::RunStep);
            assert!(card.situation.contains("connected and stable"));
        }
        _ => panic!("expected spa ui, got {:?}", ui),
    }
}

#[test]
fn parses_unknown_action_type_as_run_step() {
    // Old sessions may have unknown action types — should gracefully default to RunStep
    let text = r###"{"action":{"label":"Enter Settings","type":"UNKNOWN_TYPE"},"kind":"spa","plan":"Open settings form.","situation":"Needs configuration."}"###;
    let ui = parse_assistant_ui(text);
    match ui {
        Some(AssistantUiPayload::Spa(card)) => {
            assert_eq!(card.action.label, "Enter Settings");
            assert_eq!(card.action.action_type, AssistantActionType::RunStep);
        }
        _ => panic!("expected spa ui, got {:?}", ui),
    }
}

#[test]
fn parses_another_unknown_action_type_as_run_step() {
    let text = r###"{"action":{"label":"Configure Service","type":"CUSTOM_FORM"},"kind":"spa","plan":"I'll guide you through setup.","situation":"Need configuration."}"###;
    let ui = parse_assistant_ui(text);
    match ui {
        Some(AssistantUiPayload::Spa(card)) => {
            assert_eq!(card.action.label, "Configure Service");
            assert_eq!(card.action.action_type, AssistantActionType::RunStep);
        }
        _ => panic!("expected spa ui, got {:?}", ui),
    }
}

#[test]
fn parses_real_json_user_question() {
    let text = r###"{"kind":"user_question","questions":[{"header":"Choose Setup Approach","multiSelect":false,"options":[{"description":"Set up from scratch","label":"Fresh Setup"},{"description":"Import existing config","label":"Import Config"}],"question":"How would you like to proceed?"}]}"###;
    let ui = parse_assistant_ui(text);
    match ui {
        Some(AssistantUiPayload::UserQuestion(q)) => {
            assert_eq!(q.questions.len(), 1);
            assert_eq!(q.questions[0].header, "Choose Setup Approach");
            assert_eq!(q.questions[0].options.as_ref().expect("should have options").len(), 2);
        }
        _ => panic!("expected user_question ui, got {:?}", ui),
    }
}

#[test]
fn parses_real_json_info() {
    let text = r###"{"kind":"info","summary":"Already Set Up!\n\nYour installation is complete and working."}"###;
    let ui = parse_assistant_ui(text);
    match ui {
        Some(AssistantUiPayload::Info(info)) => {
            assert!(info.summary.contains("Already Set Up"));
        }
        _ => panic!("expected info ui, got {:?}", ui),
    }
}

#[test]
fn parses_legacy_info_marker() {
    let text = "[INFO]\nRunner timeout waiting for assistant response.";
    let ui = parse_assistant_ui(text);
    match ui {
        Some(AssistantUiPayload::Info(info)) => {
            assert!(info.summary.contains("Runner timeout"));
        }
        _ => panic!("expected info ui from legacy marker"),
    }
}

#[test]
fn parses_legacy_action_with_bold_situation() {
    let text = "[SITUATION]\nYour Mac has high load averages (3.85) caused by the Codex app using 54% CPU.\n\n[PLAN]\nI'll kill the high CPU Codex processes to reduce system load.\n\n[ACTION:Stop Codex]";
    let ui = parse_assistant_ui(text);
    match ui {
        Some(AssistantUiPayload::Spa(card)) => {
            assert_eq!(card.action.label, "Stop Codex");
            assert!(card.situation.contains("high load averages"));
        }
        _ => panic!("expected spa ui from legacy markers, got {:?}", ui),
    }
}

#[test]
fn parses_legacy_action_marker_with_custom_label() {
    // Legacy marker with unusual label — should parse as Spa with RunStep
    let text = "[SITUATION]\nService needs configuration.\n[PLAN]\nCapture settings.\n[ACTION: CONFIGURE_SERVICE]";
    let ui = parse_assistant_ui(text);
    match ui {
        Some(AssistantUiPayload::Spa(card)) => {
            assert_eq!(card.action.label, "CONFIGURE_SERVICE");
            assert_eq!(card.action.action_type, AssistantActionType::RunStep);
        }
        _ => panic!("expected spa ui from legacy marker, got {:?}", ui),
    }
}

#[test]
fn parses_plain_text_returns_none() {
    let text = "Hello, how can I help you today?";
    let ui = parse_assistant_ui(text);
    assert!(ui.is_none(), "plain text should return None");
}

#[test]
fn parses_json_with_unknown_kind_returns_none() {
    let text = r#"{"kind":"unknown","data":"something"}"#;
    let ui = parse_assistant_ui(text);
    assert!(ui.is_none(), "unknown kind should return None");
}

#[test]
fn wait_for_user_type_in_any_case() {
    let text = r#"{"action":{"label":"Wait","type":"wait_for_user"},"kind":"SPA","situation":"S"}"#;
    match parse_assistant_ui(text) {
        Some(AssistantUiPayload::Spa(card)) => {
            assert_eq!(card.kind, "spa");
            assert_eq!(card.action.action_type, AssistantActionType::WaitForUser);
        }
        other => panic!("expected spa ui, got {:?}", other),
    }
    let text = r#"{"action":{"label":"Go","type":"run_step"},"kind":"spa","situation":"S"}"#;
    match parse_assistant_ui(text) {
        Some(AssistantUiPayload::Spa(card)) => assert_eq!(card.action.action_type, AssistantActionType::RunStep),
        other => panic!("expected spa ui, got {:?}", other),
    }
    let text = r#"{"action":{"label":"Go"},"kind":"spa","situation":"S"}"#;
    match parse_assistant_ui(text) {
        Some(AssistantUiPayload::Spa(card)) => assert_eq!(card.action.action_type, AssistantActionType::RunStep),
        other => panic!("expected spa ui, got {:?}", other),
    }
}

fn obj(fields: Vec<(&str, Json)>) -> Json {
    Json::Object(fields.into_iter().map(|(k, v)| (k.to_string(), v)).collect())
}

fn text(t: &str) -> Json {
    Json::Str(t.to_string())
}

#[test]
fn payload_of_parsed_value() {
    let done = obj(vec![("kind", text("DONE")), ("summary", text("All good"))]);
    match ui_payload_of_value(&done, "done") {
        Some(AssistantUiPayload::Done(d)) => {
            assert_eq!(d.kind, "done");
            assert_eq!(d.summary, "All good");
        }
        other => panic!("expected done ui, got {:?}", other),
    }
    assert!(ui_payload_of_value(&done, "DONE").is_none());
    assert!(ui_payload_of_value(&obj(vec![("kind", text("info"))]), "info").is_none());
    let spa = obj(vec![
        ("action", obj(vec![("label", text("Fix it")), ("type", text("WAIT_FOR_USER"))])),
        ("kind", text("spa")),
        ("situation", text("Wi-Fi is off")),
    ]);
    match ui_payload_of_value(&spa, "spa") {
        Some(AssistantUiPayload::Spa(card)) => {
            assert_eq!(card.situation, "Wi-Fi is off");
            assert_eq!(card.action.label, "Fix it");
            assert_eq!(card.action.action_type, AssistantActionType::WaitForUser);
            assert!(card.plan.is_none());
        }
        other => panic!("expected spa ui, got {:?}", other),
    }
    assert!(ui_payload_of_value(&obj(vec![("situation", text("x"))]), "spa").is_none());
    assert!(ui_payload_of_value(&spa, "other").is_none());
}

#[test]
fn brace_free_reply_has_no_json_payload() {
    assert!(parse_assistant_ui("kind: spa, situation: none").is_none());
}
