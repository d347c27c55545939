use noah_desktop::json::{Json, JsonNumber};
use noah_desktop::llm::{ContentBlock, Message, MessageContent};
use noah_desktop::playbook_runtime::{
    blocked_shell_command_feedback, collect_events, compute_state, extract_fsm_block,
    extract_playbook_name_from_frontmatter, fsm_tool_response, governance_overlay,
    push_text_event, snapshot_for_playbook, validate_final_response, FsmGuards, FsmSpec,
    FsmStateSpec, FsmTerminalSpec, FsmTransitionSpec,
};
use noah_desktop::shell::SafetyTier;
use noah_desktop::tools::{register_fsm_tools, FsmEmitEventTool, FsmGetStateTool, FsmNextTool, ToolRouter};

fn from_value(v: &serde_json::Value) -> Json {
    match v {
        serde_json::Value::Null => Json::Null,
        serde_json::Value::Bool(b) => Json::Bool(*b),
        serde_json::Value::Number(n) => Json::Number(match (n.as_u64(), n.as_i64()) {
            (Some(u), _) => JsonNumber::PosInt(u),
            (None, Some(i)) => JsonNumber::NegInt(i),
            _ => JsonNumber::Float(n.to_string()),
        }),
        serde_json::Value::String(s) => Json::Str(s.clone()),
        serde_json::Value::Array(a) => Json::Array(a.iter().map(from_value).collect()),
        serde_json::Value::Object(o) => Json::Object(o.iter().map(|(k, x)| (k.clone(), from_value(x))).collect()),
    }
}

/// The JSON value a text holds, when it is JSON.
fn parse_json(text: &str) -> Option<Json> {
    serde_json::from_str::<serde_json::Value>(text).ok().map(|v| from_value(&v))
}

fn transition(from: &str, to: &str, triggers: &[&str]) -> FsmTransitionSpec {
    FsmTransitionSpec {
        id: None,
        from: from.to_string(),
        to: to.to_string(),
        goal: String::new(),
        acceptance: Vec::new(),
        triggers: triggers.iter().map(|t| t.to_string()).collect(),
        llm_guidance: Vec::new(),
    }
}

fn spec(initial: &str, transitions: Vec<FsmTransitionSpec>) -> FsmSpec {
    FsmSpec {
        version: 1,
        machine: String::new(),
        initial_state: initial.to_string(),
        states: Vec::new(),
        events: Vec::new(),
        transitions,
        terminal: FsmTerminalSpec { states: Vec::new(), goal: String::new() },
        guards: FsmGuards { blocked_commands: Vec::new() },
    }
}

#[test]
fn parses_fsm_block() {
    let md = "## FSM\n```json\n{\"version\":1,\"machine\":\"x\",\"initial_state\":\"A\",\"states\":{},\"events\":{},\"transitions\":[],\"terminal\":{\"states\":[\"A\"]},\"guards\":{}}\n```";
    let raw = extract_fsm_block(md).expect("fsm block");
    let parsed = parse_json(&raw).expect("valid json");
    assert_eq!(parsed.str_field("initial_state"), Some("A"));
}

#[test]
fn transitions_on_events() {
    let s = spec("A", vec![transition("A", "B", &["go"])]);
    let state = compute_state(&s, &vec!["go".to_string()]);
    assert_eq!(state, "B");
}

#[test]
fn unknown_events_keep_the_state_and_first_transition_wins() {
    let s = spec(
        "A",
        vec![transition("A", "B", &["go"]), transition("A", "C", &["go"]), transition("B", "D", &["next"])],
    );
    let ev = |xs: &[&str]| xs.iter().map(|x| x.to_string()).collect::<Vec<_>>();
    assert_eq!(compute_state(&s, &ev(&["noise", "go"])), "B");
    assert_eq!(compute_state(&s, &ev(&["go", "go", "next"])), "D");
    assert_eq!(compute_state(&s, &ev(&[])), "A");
}

#[test]
fn fsm_block_needs_heading_fence_and_close() {
    assert_eq!(extract_fsm_block("## FSM\n```\n  {}  \n```"), Some("{}".to_string()));
    assert_eq!(extract_fsm_block("no heading"), None);
    assert_eq!(extract_fsm_block("## FSM\n```json\n{}"), None);
}

#[test]
fn frontmatter_name_is_the_first() {
    let c = "---\nname: first\nname: second\n---\nbody";
    assert_eq!(extract_playbook_name_from_frontmatter(c), Some("first".to_string()));
    assert_eq!(extract_playbook_name_from_frontmatter("# none"), None);
}

#[test]
fn text_events() {
    let mut events = Vec::new();
    push_text_event(&mut events, "  Go Ahead ");
    push_text_event(&mut events, "please skip this optional step");
    push_text_event(&mut events, "Credentials were submitted via Noah secure form.");
    push_text_event(&mut events, "go ahead now");
    assert_eq!(events, vec!["user_confirm", "user_skip_optional", "secure_form_submitted"]);
}

fn emit(event: &str) -> Message {
    Message {
        role: "assistant".to_string(),
        content: MessageContent::Blocks(vec![ContentBlock::ToolUse {
            id: "t".to_string(),
            name: "fsm_emit_event".to_string(),
            input: Json::Object(vec![("event".to_string(), Json::Str(event.to_string()))]),
        }]),
    }
}

fn user(t: &str) -> Message {
    Message { role: "user".to_string(), content: MessageContent::Text(t.to_string()) }
}

fn machine() -> FsmSpec {
    let mut s = spec(
        "diagnose",
        vec![transition("diagnose", "fix", &["user_confirm"]), transition("fix", "done", &["fixed"])],
    );
    s.machine = "wifi".to_string();
    s.states = vec![("diagnose".to_string(), FsmStateSpec { summary: "Look around".to_string(), llm_guidance: Vec::new() })];
    s.terminal.states = vec!["done".to_string()];
    s.guards.blocked_commands = vec![
        ("fix".to_string(), vec!["Reboot".to_string()]),
        ("*".to_string(), vec!["rm ".to_string()]),
    ];
    s
}

#[test]
fn snapshot_follows_the_conversation() {
    let m = machine();
    let msgs = vec![user("yes"), emit(" fixed ")];
    assert_eq!(collect_events(&msgs), vec!["user_confirm", "fixed"]);
    let snap = snapshot_for_playbook(Some("wifi-pb"), &msgs, Some(&m)).unwrap();
    assert_eq!(snap.state, "done");
    assert!(snap.terminal);
    assert_eq!(snap.machine, "wifi");
    assert!(snap.next.is_empty());
    assert!(snapshot_for_playbook(None, &msgs, Some(&m)).is_none());
    assert!(snapshot_for_playbook(Some("wifi-pb"), &msgs, None).is_none());
}

#[test]
fn governance_overlay_texts() {
    let m = machine();
    assert_eq!(governance_overlay(None, &Vec::new(), Some(&m)), "");
    let plain = governance_overlay(Some("pb"), &Vec::new(), None);
    assert!(plain.contains("Active playbook: `pb`."));
    let overlay = governance_overlay(Some("pb"), &Vec::new(), Some(&m));
    assert!(overlay.contains("FSM state: `diagnose`"));
    assert!(overlay.contains("State summary: Look around"));
    assert!(overlay.contains("- `diagnose` -> `fix`: (goal unspecified) | triggers: user_confirm\n"));
    assert!(overlay.ends_with("call `fsm_emit_event` before your final ui_* response."));
}

#[test]
fn done_is_refused_before_terminal() {
    let m = machine();
    let early = validate_final_response(Some("pb"), &Vec::new(), "", "[DONE] all good", Some(&m));
    assert_eq!(
        early.as_deref(),
        Some("Policy guard: `ui_done` is not allowed before terminal state. Current state is `diagnose`.")
    );
    let msgs = vec![user("ok"), emit("fixed")];
    assert!(validate_final_response(Some("pb"), &msgs, "", "[done]", Some(&m)).is_none());
    assert!(validate_final_response(Some("pb"), &Vec::new(), "", "just text", Some(&m)).is_none());
}

#[test]
fn guards_block_commands_by_state() {
    let m = machine();
    let in_fix = vec![user("continue")];
    let hit = blocked_shell_command_feedback(Some("pb"), &in_fix, "sudo REBOOT now", Some(&m)).unwrap();
    assert!(hit.contains("state `fix`"));
    assert!(hit.contains("pattern: `Reboot`"));
    // The state's own list replaces the `*` list.
    assert!(blocked_shell_command_feedback(Some("pb"), &in_fix, "rm -rf x", Some(&m)).is_none());
    // Without an own list, the `*` list applies.
    assert!(blocked_shell_command_feedback(Some("pb"), &Vec::new(), "rm -rf x", Some(&m)).is_some());
}

#[test]
fn fsm_tools_answer_with_the_snapshot() {
    let m = machine();
    let input = Json::Object(Vec::new());
    let answer = fsm_tool_response("fsm_get_state", Some("pb"), &Vec::new(), &input, Some(&m)).unwrap();
    let v = parse_json(&answer).unwrap();
    assert_eq!(v.str_field("state"), Some("diagnose"));
    assert_eq!(v.str_field("machine"), Some("wifi"));
    assert!(fsm_tool_response("shell_run", Some("pb"), &Vec::new(), &input, Some(&m)).is_none());
}

#[test]
fn fsm_tools_register_read_only() {
    let mut router = ToolRouter::new();
    register_fsm_tools(&mut router);
    let names: Vec<&str> = router.tools.iter().map(|t| t.name.as_str()).collect();
    assert_eq!(names, vec!["fsm_get_state", "fsm_emit_event", "fsm_next"]);
    assert!(router.find_tool("fsm_next").is_some());
}

fn to_value(j: &Json) -> serde_json::Value {
    match j {
        Json::Null => serde_json::Value::Null,
        Json::Bool(b) => serde_json::Value::Bool(*b),
        Json::Number(JsonNumber::PosInt(u)) => serde_json::Value::from(*u),
        Json::Number(JsonNumber::NegInt(i)) => serde_json::Value::from(*i),
        Json::Number(JsonNumber::Float(s)) => serde_json::from_str(s).unwrap(),
        Json::Str(s) => serde_json::Value::String(s.clone()),
        Json::Array(a) => serde_json::Value::Array(a.iter().map(to_value).collect()),
        Json::Object(o) => serde_json::Value::Object(o.iter().map(|(k, x)| (k.clone(), to_value(x))).collect()),
    }
}

#[test]
fn fsm_event_tool_schema() {
    let schema = to_value(&FsmEmitEventTool.input_schema());
    assert_eq!(
        schema.to_string(),
        r#"{"additionalProperties":false,"properties":{"event":{"description":"Event name declared by playbook FSM, e.g. install_verified.","type":"string"},"metadata":{"type":"object"}},"required":["event"],"type":"object"}"#
    );
}

#[test]
fn fsm_tools_registered_with_their_definitions() {
    let mut router = ToolRouter::new();
    register_fsm_tools(&mut router);
    register_fsm_tools(&mut router);
    assert_eq!(router.tools.len(), 6);
    let emit = &router.tools[1];
    assert_eq!(emit.description, "Emit a domain event to advance playbook FSM state when milestone is reached.");
    assert_eq!(to_value(&emit.input_schema), to_value(&FsmEmitEventTool.input_schema()));
    for t in &router.tools {
        assert_eq!(t.tier, SafetyTier::ReadOnly);
        assert_eq!(to_value(&t.input_schema)["type"], "object");
    }
    assert_eq!(to_value(&router.tools[0].input_schema), to_value(&FsmGetStateTool.input_schema()));
    assert_eq!(to_value(&router.tools[2].input_schema), to_value(&FsmNextTool.input_schema()));
    assert_eq!(router.tools[3].name, "fsm_get_state");
}

#[test]
fn fsm_tools_acknowledge_with_ok_data() {
    let input = Json::Null;
    let a = FsmGetStateTool.execute(&input);
    assert_eq!(a.output, "FSM response is resolved by runtime.");
    assert_eq!(to_value(&a.data).to_string(), r#"{"ok":true}"#);
    let b = FsmEmitEventTool.execute(&input);
    assert_eq!(b.output, "FSM event accepted by runtime.");
    assert_eq!(to_value(&b.data).to_string(), r#"{"ok":true}"#);
    let c = FsmNextTool.execute(&input);
    assert_eq!(c.output, "FSM next-step response is resolved by runtime.");
    assert_eq!(to_value(&c.data).to_string(), r#"{"ok":true}"#);
}
