use noah_desktop::json::Json;
use noah_desktop::shell::SafetyTier;
use noah_desktop::llm::{ContentBlock, ResponseBlock};
use noah_desktop::tools::ToolRouter;
use noah_desktop::turn::{
    assistant_blocks, gather_texts, invalid_payload_result, is_context_failure, plan_turn,
    stopped_text, tool_result_block, ui_guard_results, ui_protocol_error, TurnPlan,
    cancelled_result, cancelled_turn, turn_step, TurnAction, TurnState,
};
use noah_desktop::{linux_tools, windows_tools};

#[test]
fn test_register_and_find() {
    let mut router = ToolRouter::new();
    linux_tools::register_tools(&mut router);
    assert!(router.find_tool("linux_system_summary").is_some());
    assert!(router.find_tool("linux_ping").is_some());
    assert!(router.find_tool("nonexistent_tool").is_none());
}

#[test]
fn test_tool_definitions_nonempty() {
    let mut router = ToolRouter::new();
    windows_tools::register_tools(&mut router);
    assert!(!router.tools.is_empty(), "No tools registered");
    for def in &router.tools {
        assert!(!def.name.is_empty(), "Tool name is empty");
        assert!(!def.description.is_empty(), "Tool {} has empty description", def.name);
    }
}

#[test]
fn test_no_duplicate_tool_names() {
    for register in [linux_tools::register_tools as fn(&mut ToolRouter), windows_tools::register_tools] {
        let mut router = ToolRouter::new();
        register(&mut router);
        let mut names: Vec<&str> = router.tools.iter().map(|d| d.name.as_str()).collect();
        names.sort();
        let before = names.len();
        names.dedup();
        assert_eq!(before, names.len(), "Duplicate tool names registered");
    }
}

#[test]
fn tool_tiers() {
    assert_eq!(linux_tools::LinuxKillProcess.spec().tier, SafetyTier::SafeAction);
    assert_eq!(linux_tools::LinuxPing.spec().tier, SafetyTier::ReadOnly);
    assert_eq!(windows_tools::WinRestartSpooler.spec().name, "win_restart_spooler");
}

fn call(id: &str, name: &str) -> ResponseBlock {
    ResponseBlock::ToolUse { id: id.to_string(), name: name.to_string(), input: Json::Null }
}

fn say(t: &str) -> ResponseBlock {
    ResponseBlock::Text { text: t.to_string() }
}

#[test]
fn turn_plans() {
    assert_eq!(plan_turn(&vec![say("hi")]), TurnPlan::Finish);
    assert_eq!(plan_turn(&vec![say("x"), call("1", "linux_ping")]), TurnPlan::RunTools);
    assert_eq!(plan_turn(&vec![say("x"), call("1", "ui_done")]), TurnPlan::SingleUi(1));
    assert_eq!(
        plan_turn(&vec![call("1", "ui_done"), call("2", "linux_ping")]),
        TurnPlan::UiPolicyViolation
    );
    assert_eq!(
        plan_turn(&vec![call("1", "ui_info"), call("2", "ui_spa")]),
        TurnPlan::UiPolicyViolation
    );
}

#[test]
fn turn_results() {
    let blocks = vec![say("a"), call("1", "ui_done"), call("2", "x")];
    let guards = ui_guard_results(&blocks);
    assert_eq!(guards.len(), 2);
    match &guards[1] {
        ContentBlock::ToolResult { tool_use_id, content, is_error } => {
            assert_eq!(tool_use_id, "2");
            assert!(content.starts_with("Policy guard: do not mix ui_* tools"));
            assert_eq!(*is_error, Some(true));
        }
        _ => panic!("expected a tool result"),
    }
    let mut texts = vec!["before".to_string()];
    gather_texts(&mut texts, &blocks);
    assert_eq!(texts, vec!["before", "a"]);
    assert_eq!(stopped_text(&mut texts), "before\na\n[INFO] Stopped by user.");
    let converted = assistant_blocks(blocks);
    assert_eq!(converted.len(), 3);
    assert!(matches!(&converted[0], ContentBlock::Text { text } if text == "a"));
    assert!(matches!(&converted[2], ContentBlock::ToolUse { id, .. } if id == "2"));
    assert!(matches!(
        tool_result_block("9".to_string(), Err("boom".to_string())),
        ContentBlock::ToolResult { content, is_error: Some(true), .. } if content == "Error: boom"
    ));
    assert!(matches!(
        tool_result_block("9".to_string(), Ok("fine".to_string())),
        ContentBlock::ToolResult { content, is_error: None, .. } if content == "fine"
    ));
    assert!(matches!(
        invalid_payload_result("3".to_string(), "bad kind"),
        ContentBlock::ToolResult { content, .. } if content == "Policy guard: invalid ui_* payload: bad kind. Re-emit one valid ui_* tool call matching schema."
    ));
}

#[test]
fn protocol_retries_give_up_at_the_third() {
    let (n, fallback) = ui_protocol_error(0, "x");
    assert_eq!((n, fallback), (1, None));
    let (n, fallback) = ui_protocol_error(1, "x");
    assert_eq!((n, fallback), (2, None));
    let (n, fallback) = ui_protocol_error(2, "mixed");
    assert_eq!(n, 3);
    assert_eq!(
        fallback.unwrap(),
        "{\"kind\":\"info\",\"summary\":\"I hit an internal response-format issue (mixed). Please try again.\"}"
    );
}

#[test]
fn context_failures() {
    assert!(is_context_failure("Context limit exceeded: too long"));
    assert!(is_context_failure("prompt is too long"));
    assert!(!is_context_failure("network down"));
}

fn fresh() -> TurnState {
    TurnState { all_text: Vec::new(), retries: 0 }
}

#[test]
fn turn_step_finishes_with_gathered_text() {
    let mut st = TurnState { all_text: vec!["earlier".to_string()], retries: 1 };
    match turn_step(&mut st, &vec![say("done here")], None) {
        TurnAction::Reply(t) => assert_eq!(t, "earlier\ndone here"),
        other => panic!("expected a reply, got {:?}", other),
    }
    assert_eq!(st.retries, 1);
}

#[test]
fn turn_step_runs_tools() {
    let mut st = fresh();
    let r = turn_step(&mut st, &vec![say("checking"), call("1", "linux_ping")], None);
    assert!(matches!(r, TurnAction::RunTools));
    assert_eq!(st.all_text, vec!["checking"]);
    assert_eq!(st.retries, 0);
}

#[test]
fn turn_step_single_ui_call() {
    let mut st = fresh();
    let blocks = vec![call("7", "ui_done")];
    match turn_step(&mut st, &blocks, Some(Ok("{\"kind\":\"done\"}".to_string()))) {
        TurnAction::ReplyAfter(results, answer) => {
            assert_eq!(answer, "{\"kind\":\"done\"}");
            assert_eq!(results.len(), 1);
            assert!(matches!(&results[0],
                ContentBlock::ToolResult { tool_use_id, content, is_error: None }
                    if tool_use_id == "7" && content == "{\"kind\":\"done\"}"));
        }
        other => panic!("expected the payload as answer, got {:?}", other),
    }
    assert_eq!(st.retries, 0);
    match turn_step(&mut st, &blocks, Some(Err("missing summary".to_string()))) {
        TurnAction::AskAgain(results) => {
            assert_eq!(results.len(), 1);
            assert!(matches!(&results[0],
                ContentBlock::ToolResult { tool_use_id, content, is_error: Some(true) }
                    if tool_use_id == "7" && content == "Policy guard: invalid ui_* payload: missing summary. Re-emit one valid ui_* tool call matching schema."));
        }
        other => panic!("expected another request, got {:?}", other),
    }
    assert_eq!(st.retries, 1);
}

#[test]
fn turn_step_protocol_violations_end_at_the_third() {
    let mut st = fresh();
    let blocks = vec![call("1", "ui_done"), call("2", "linux_ping")];
    for n in 1..3 {
        match turn_step(&mut st, &blocks, None) {
            TurnAction::AskAgain(results) => assert_eq!(results.len(), 2),
            other => panic!("expected another request, got {:?}", other),
        }
        assert_eq!(st.retries, n);
    }
    match turn_step(&mut st, &blocks, None) {
        TurnAction::ReplyAfter(results, answer) => {
            assert_eq!(results.len(), 2);
            assert_eq!(
                answer,
                "{\"kind\":\"info\",\"summary\":\"I hit an internal response-format issue (mixed/multiple ui_* calls). Please try again.\"}"
            );
        }
        other => panic!("expected the fallback answer, got {:?}", other),
    }
    assert_eq!(st.retries, 3);
}

#[test]
fn cancelled_turns_and_calls() {
    let mut st = TurnState { all_text: vec!["partial".to_string()], retries: 2 };
    assert_eq!(cancelled_turn(&mut st), "partial\n[INFO] Stopped by user.");
    assert_eq!(st.retries, 2);
    assert!(matches!(cancelled_result("4".to_string()),
        ContentBlock::ToolResult { tool_use_id, content, is_error: Some(true) }
            if tool_use_id == "4" && content == "Cancelled by user."));
}
