use noah_desktop::health::{health_report, report_os_name, CategoryReport, CheckLine, CheckStatus};
use noah_desktop::json::{Json, JsonNumber};
use noah_desktop::linux_tools::{LinuxNetworkInfo, LinuxPing, ShellRun};
use noah_desktop::playbooks::{ActivatePlaybookTool, PlaybookRegistry};
use noah_desktop::reports::session_markdown;
use noah_desktop::shell::{SafetyTier, TargetOs};
use noah_desktop::tool_output::shell_change_record;
use noah_desktop::tools::{object_schema, ToolRouter};
use noah_desktop::windows_tools::WinMoveFile;

fn to_value(j: &Json) -> serde_json::Value {
    match j {
        Json::Null => serde_json::Value::Null,
        Json::Bool(b) => serde_json::Value::Bool(*b),
        Json::Number(JsonNumber::PosInt(u)) => serde_json::Value::from(*u),
        Json::Number(JsonNumber::NegInt(i)) => serde_json::Value::from(*i),
        Json::Number(JsonNumber::Float(s)) => serde_json::from_str(s).unwrap(),
        Json::Str(s) => serde_json::Value::String(s.clone()),
        Json::Array(a) => serde_json::Value::Array(a.iter().map(to_value).collect()),
        Json::Object(o) => serde_json::Value::Object(o.iter().map(|(k, x)| (k.clone(), to_value(x))).collect()),
    }
}

/// The compact JSON text of a value.
fn json_to_string(j: &Json) -> String {
    to_value(j).to_string()
}

fn as_value(j: &Json) -> serde_json::Value {
    serde_json::from_str(&json_to_string(j)).unwrap()
}

#[test]
fn session_markdown_lists_conversation_and_changes() {
    let messages = vec![
        ("user".to_string(), "My wifi is slow".to_string()),
        ("assistant".to_string(), "Let me check.".to_string()),
        ("system".to_string(), "note".to_string()),
        ("tool".to_string(), "raw".to_string()),
    ];
    let changes = vec![
        ("shell_run".to_string(), "Flushed DNS".to_string(), false),
        ("linux_kill_process".to_string(), "Killed 42".to_string(), true),
    ];
    let md = session_markdown(Some("Slow wifi"), Some("2024-05-01T10:00:00Z"), &messages, &changes, "1.2.3");
    assert_eq!(
        md,
        "# Slow wifi\n\n**Date:** 2024-05-01T10:00:00Z\n\n---\n\n## Conversation\n\n\
**You**: My wifi is slow\n\n**Noah**: Let me check.\n\n*System*: note\n\ntool: raw\n\n\
---\n\n## Changes Made\n\n- **shell_run**: Flushed DNS\n- **linux_kill_process**: Killed 42 (undone)\n\n\
---\n\n*Exported from Noah v1.2.3*\n"
    );
}

#[test]
fn session_markdown_without_metadata_or_changes() {
    let md = session_markdown(None, None, &Vec::new(), &Vec::new(), "0.1.0");
    assert_eq!(
        md,
        "# Untitled Session\n\n**Date:** Unknown\n\n---\n\n## Conversation\n\n---\n\n*Exported from Noah v0.1.0*\n"
    );
}

#[test]
fn health_report_lists_categories_and_checks() {
    let categories = vec![CategoryReport {
        label: "Security".to_string(),
        score: 80,
        grade: "B".to_string(),
        checks: vec![
            CheckLine { status: CheckStatus::Pass, label: "Firewall".to_string(), detail: "on".to_string() },
            CheckLine { status: CheckStatus::Warn, label: "Updates".to_string(), detail: "3 pending".to_string() },
            CheckLine { status: CheckStatus::Fail, label: "Disk".to_string(), detail: "unencrypted".to_string() },
        ],
    }];
    let report = health_report("box", report_os_name(TargetOs::Linux), "2024-05-01 10:00 UTC", 80, "B", &categories);
    let rule = "\u{2500}".repeat(44);
    let expected = format!(
        "\u{2554}{bar}\u{2557}\n\u{2551}         NOAH HEALTH REPORT               \u{2551}\n\u{255a}{bar}\u{255d}\n\n\
Device:     box\nOS:         Linux\nGenerated:  2024-05-01 10:00 UTC\n\nOverall Score: 80 (B)\n{rule}\n\
\n\u{25b8} Security \u{2014} 80 (B)\n  \u{2713} Firewall \u{2014} on\n  \u{26a0} Updates \u{2014} 3 pending\n  \u{2717} Disk \u{2014} unencrypted\n\
\n{rule}\nGenerated by Noah (https://onnoah.app)\nHealth data collected locally on this device.\n",
        bar = "\u{2550}".repeat(42),
        rule = rule
    );
    assert_eq!(report, expected);
}

#[test]
fn report_os_names() {
    assert_eq!(report_os_name(TargetOs::MacOs), "macOS");
    assert_eq!(report_os_name(TargetOs::Windows), "Windows");
    assert_eq!(report_os_name(TargetOs::Other), "Linux");
}

#[test]
fn shell_change_record_names_the_command() {
    let r = shell_change_record("ls -la");
    assert_eq!(r.len(), 1);
    assert_eq!(r[0].description, "Executed shell command: ls -la");
    assert_eq!(r[0].undo_tool, "");
    assert!(matches!(r[0].undo_input, Json::Null));
}

#[test]
fn tool_schemas_match_their_declarations() {
    assert_eq!(
        as_value(&LinuxPing.input_schema()),
        serde_json::from_str::<serde_json::Value>(
            r#"{"properties":{"count":{"default":4,"description":"Number of pings to send (default 4)","type":"integer"},"host":{"description":"Hostname or IP address to ping","type":"string"}},"required":["host"],"type":"object"}"#
        )
        .unwrap()
    );
    assert_eq!(
        as_value(&ShellRun.input_schema()),
        serde_json::from_str::<serde_json::Value>(
            r#"{"additionalProperties":false,"properties":{"command":{"description":"The shell command to execute","type":"string"},"reason":{"description":"Plain-language explanation of what this command does and why, written for a non-technical user. Example: 'Delete old log files to free up disk space'","type":"string"}},"required":["command","reason"],"type":"object"}"#
        )
        .unwrap()
    );
    assert_eq!(
        as_value(&WinMoveFile.input_schema()),
        serde_json::from_str::<serde_json::Value>(
            r#"{"properties":{"destination":{"description":"Destination path","type":"string"},"operation":{"default":"move","description":"Operation: 'move' or 'copy'. Default: 'move'","enum":["move","copy"],"type":"string"},"source":{"description":"Source file or directory path","type":"string"}},"required":["source","destination"],"type":"object"}"#
        )
        .unwrap()
    );
    assert_eq!(
        json_to_string(&LinuxNetworkInfo.input_schema()),
        r#"{"properties":{},"required":[],"type":"object"}"#
    );
}

#[test]
fn object_schema_builds_closed_and_open_objects() {
    let open = object_schema(Vec::new(), vec!["a".to_string()], false);
    assert_eq!(json_to_string(&open), r#"{"properties":{},"required":["a"],"type":"object"}"#);
    let closed = object_schema(Vec::new(), Vec::new(), true);
    assert_eq!(
        json_to_string(&closed),
        r#"{"additionalProperties":false,"properties":{},"required":[],"type":"object"}"#
    );
}

#[test]
fn activate_playbook_spec_offers_name_input() {
    let tool = ActivatePlaybookTool::new(PlaybookRegistry { playbooks_dir: "/tmp/pb".to_string(), metas: Vec::new() });
    let spec = tool.spec();
    assert_eq!(spec.name, "activate_playbook");
    assert_eq!(spec.tier, SafetyTier::ReadOnly);
    assert_eq!(
        as_value(&spec.input_schema),
        serde_json::from_str::<serde_json::Value>(
            r#"{"properties":{"name":{"description":"The playbook name (e.g. 'network-diagnostics')","type":"string"}},"required":["name"],"type":"object"}"#
        )
        .unwrap()
    );
    let mut router = ToolRouter::new();
    router.register(spec);
    assert!(router.find_tool("activate_playbook").is_some());
}

#[test]
fn tool_definitions_copy_the_registry() {
    let mut router = ToolRouter::new();
    noah_desktop::linux_tools::register_tools(&mut router);
    let defs = router.tool_definitions();
    assert_eq!(defs.len(), router.tools.len());
    for (d, t) in defs.iter().zip(router.tools.iter()) {
        assert_eq!(d.name, t.name);
        assert_eq!(d.description, t.description);
        assert_eq!(to_value(&d.input_schema), to_value(&t.input_schema));
    }
    assert_eq!(defs[1].name, "linux_ping");
}

#[test]
fn copy_json_keeps_nested_values() {
    let v = Json::Object(vec![
        ("a".to_string(), Json::Array(vec![Json::Number(JsonNumber::NegInt(-3)), Json::Null])),
        ("b".to_string(), Json::Number(JsonNumber::Float("1.5".to_string()))),
        ("c".to_string(), Json::Bool(true)),
    ]);
    let c = noah_desktop::json::copy_json(&v);
    assert_eq!(json_to_string(&c), r#"{"a":[-3,null],"b":1.5,"c":true}"#);
}
