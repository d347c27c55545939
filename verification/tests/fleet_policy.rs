use noah_desktop::fleet_policy::{
    is_category_enabled, resolve_safety_effect, should_auto_heal, FleetPolicy, PolicyRule,
    SafetyEffect,
};
use noah_desktop::json::Json;

fn make_policy(rules: Vec<PolicyRule>) -> FleetPolicy {
    FleetPolicy { version: 1, rules }
}

fn safety_rule(selector: &str, effect: &str) -> PolicyRule {
    PolicyRule {
        rule_type: "safety".to_string(),
        selector: selector.to_string(),
        effect: effect.to_string(),
        condition: None,
    }
}

fn empty() -> Json {
    Json::Object(Vec::new())
}

fn command(c: &str) -> Json {
    Json::Object(vec![("command".to_string(), Json::Str(c.to_string()))])
}

#[test]
fn exact_match_auto_approve() {
    let policy = make_policy(vec![safety_rule("mac_clear_caches", "auto_approve")]);
    let result = resolve_safety_effect(&policy, "mac_clear_caches", &empty());
    assert_eq!(result, Some(SafetyEffect::AutoApprove));
}

#[test]
fn exact_match_block() {
    let policy = make_policy(vec![safety_rule("mac_kill_process", "block")]);
    let result = resolve_safety_effect(&policy, "mac_kill_process", &empty());
    assert_eq!(result, Some(SafetyEffect::Block));
}

#[test]
fn no_match_returns_none() {
    let policy = make_policy(vec![safety_rule("mac_clear_caches", "auto_approve")]);
    let result = resolve_safety_effect(&policy, "shell_run", &empty());
    assert_eq!(result, None);
}

#[test]
fn glob_match() {
    let policy = make_policy(vec![safety_rule("mac_*", "auto_approve")]);
    let result = resolve_safety_effect(&policy, "mac_clear_caches", &empty());
    assert_eq!(result, Some(SafetyEffect::AutoApprove));
}

#[test]
fn wildcard_match() {
    let policy = make_policy(vec![safety_rule("*", "require_approval")]);
    let result = resolve_safety_effect(&policy, "anything", &empty());
    assert_eq!(result, Some(SafetyEffect::RequireApproval));
}

#[test]
fn most_restrictive_wins() {
    let policy = make_policy(vec![
        safety_rule("shell_run", "auto_approve"),
        safety_rule("*", "require_approval"),
    ]);
    let result = resolve_safety_effect(&policy, "shell_run", &empty());
    assert_eq!(result, Some(SafetyEffect::RequireApproval));
}

#[test]
fn condition_command_pattern() {
    let policy = make_policy(vec![PolicyRule {
        rule_type: "safety".to_string(),
        selector: "shell_run".to_string(),
        effect: "block".to_string(),
        condition: Some(vec![("command_pattern".to_string(), Json::Str("sudo *".to_string()))]),
    }]);
    // Matches
    let result = resolve_safety_effect(&policy, "shell_run", &command("sudo rm -rf /"));
    assert_eq!(result, Some(SafetyEffect::Block));
    // Doesn't match
    let result = resolve_safety_effect(&policy, "shell_run", &command("ls -la"));
    assert_eq!(result, None);
}

#[test]
fn health_category_enabled() {
    let policy = make_policy(vec![PolicyRule {
        rule_type: "health".to_string(),
        selector: "backups".to_string(),
        effect: "disable".to_string(),
        condition: None,
    }]);
    assert_eq!(is_category_enabled(&policy, "backups"), Some(false));
    assert_eq!(is_category_enabled(&policy, "security"), None);
}

#[test]
fn health_auto_heal() {
    let policy = make_policy(vec![PolicyRule {
        rule_type: "health".to_string(),
        selector: "performance".to_string(),
        effect: "auto_heal".to_string(),
        condition: None,
    }]);
    assert_eq!(should_auto_heal(&policy, "performance"), Some(true));
    assert_eq!(should_auto_heal(&policy, "security"), None);
}

#[test]
fn block_wins_whatever_the_order() {
    let a = make_policy(vec![safety_rule("*", "block"), safety_rule("x", "auto_approve")]);
    let b = make_policy(vec![safety_rule("x", "auto_approve"), safety_rule("*", "block")]);
    assert_eq!(resolve_safety_effect(&a, "x", &empty()), Some(SafetyEffect::Block));
    assert_eq!(resolve_safety_effect(&b, "x", &empty()), Some(SafetyEffect::Block));
}
