use noah_desktop::autoheal::{
    attempt_key, fleet_scores, heal_message, heal_step, is_failing, off_cooldown,
    playbook_description, setting_true, triage_needed, HealStep,
};
use noah_desktop::consumer::{
    auth_header, auth_ref, base_url, billing_url, entitlement_fallback, has_session,
    is_paywalled, is_within_offline_grace, session_token_from, Auth, CachedEntitlement,
    Entitlement, EntitlementFallback, FileRead,
};
use noah_desktop::health::{
    check_status, checkin_fields, enabled_categories, health_fix_target, should_scan,
    CheckStatus, FixTarget, HealthCategory,
};
use noah_desktop::json::{Json, JsonNumber};
use noah_desktop::mobile::{
    authorize, new_device_secret, new_pairing_token, pair_error, pair_status, pairing_qr_data,
    triage_message, triage_title, AuthDecision, PairOutcome, PairedDevice, PairingState,
    TriageRequest,
};
use noah_desktop::reports::{pairing_status, prompt_step, runner_timeout_output, PromptStep};
use noah_desktop::shell::TargetOs;
use noah_desktop::tool_output::{
    clear_cache_change, clear_cache_report, package_listing, win_cache_paths, MoveOutcome,
};

fn from_value(v: &serde_json::Value) -> Json {
    match v {
        serde_json::Value::Null => Json::Null,
        serde_json::Value::Bool(b) => Json::Bool(*b),
        serde_json::Value::Number(n) => Json::Number(match (n.as_u64(), n.as_i64()) {
            (Some(u), _) => JsonNumber::PosInt(u),
            (None, Some(i)) => JsonNumber::NegInt(i),
            _ => JsonNumber::Float(n.to_string()),
        }),
        serde_json::Value::String(s) => Json::Str(s.clone()),
        serde_json::Value::Array(a) => Json::Array(a.iter().map(from_value).collect()),
        serde_json::Value::Object(o) => Json::Object(o.iter().map(|(k, x)| (k.clone(), from_value(x))).collect()),
    }
}

/// The JSON value a text holds, when it is JSON.
fn parse_json(text: &str) -> Option<Json> {
    serde_json::from_str::<serde_json::Value>(text).ok().map(|v| from_value(&v))
}

fn ent(status: &str, used: i64, limit: i64) -> Entitlement {
    Entitlement {
        plan: None,
        status: status.to_string(),
        trial_started_at: None,
        trial_ends_at: None,
        period_start: None,
        period_end: None,
        usage_used: used,
        usage_limit: limit,
        fix_count_total: 0,
    }
}

#[test]
fn paywall_rules() {
    assert!(!is_paywalled(&ent("none", 5, 1)));
    assert!(!is_paywalled(&ent("trialing", 5, 1)));
    assert!(!is_paywalled(&ent("active", 2, 3)));
    assert!(is_paywalled(&ent("active", 3, 3)));
    assert!(is_paywalled(&ent("canceled", 0, 3)));
}

#[test]
fn offline_grace_is_72_hours() {
    let cached = CachedEntitlement { entitlement: ent("active", 0, 1), fetched_at: 1_000 };
    assert!(is_within_offline_grace(&cached, 1_000 + 72 * 3_600_000));
    assert!(!is_within_offline_grace(&cached, 1_001 + 72 * 3_600_000));
    assert_eq!(entitlement_fallback("status 401", true, Some(&cached), 2_000), EntitlementFallback::SignOut);
    assert_eq!(entitlement_fallback("status 401", false, Some(&cached), 2_000), EntitlementFallback::UseCached);
    assert_eq!(entitlement_fallback("timeout", false, None, 2_000), EntitlementFallback::Nothing);
}

#[test]
fn consumer_auth_and_tokens() {
    let session = Some("s1".to_string());
    let device = Some("d1".to_string());
    let none: Option<String> = None;
    assert!(matches!(auth_ref(&session, &device), Some(Auth::Session("s1"))));
    assert!(matches!(auth_ref(&none, &device), Some(Auth::Device("d1"))));
    assert!(auth_ref(&none, &none).is_none());
    assert_eq!(auth_header(&Auth::Session("t")), ("Authorization", "Bearer t".to_string()));
    assert_eq!(auth_header(&Auth::Device("d")), ("X-Device-Id", "d".to_string()));
    assert_eq!(base_url(Some("http://x"), false), "http://x");
    assert_eq!(base_url(None, true), "http://localhost:8788");
    assert_eq!(base_url(None, false), "https://noah-consumer.fly.dev");
    assert_eq!(session_token_from(&FileRead::Contents(" tok \n".to_string())), Ok(Some("tok".to_string())));
    assert_eq!(session_token_from(&FileRead::Contents("  ".to_string())), Ok(None));
    assert_eq!(session_token_from(&FileRead::NotFound), Ok(None));
    assert_eq!(
        session_token_from(&FileRead::Failed("denied".to_string())),
        Err("read session: denied".to_string())
    );
    assert!(has_session(&FileRead::Contents("tok".to_string())));
    assert!(!has_session(&FileRead::NotFound));
    let body = parse_json(r#"{"url":"https://pay"}"#).unwrap();
    assert_eq!(billing_url(&body, "checkout"), Ok("https://pay".to_string()));
    assert_eq!(billing_url(&Json::Null, "portal"), Err("portal response missing url".to_string()));
}

#[test]
fn autoheal_decisions() {
    assert!(setting_true(Some("true")));
    assert!(!setting_true(Some("yes")));
    assert!(!setting_true(None));
    assert!(!is_failing(Some("pass")));
    assert!(is_failing(Some("warn")));
    assert!(is_failing(None));
    assert_eq!(attempt_key("security.firewall"), "autoheal_attempted:security.firewall");
    assert!(off_cooldown(None, 0, 0));
    assert!(off_cooldown(Some("garbage"), 0, 0));
    assert!(!off_cooldown(Some("1970-01-01T00:00:00Z"), 23 * 3600, 0));
    assert!(off_cooldown(Some("1970-01-01T00:00:00Z"), 24 * 3600, 0));
    assert_eq!(heal_step(true, false, 1, 1, true, "wifi", true), HealStep::Run);
    assert_eq!(heal_step(true, false, 1, 1, true, "wifi", false), HealStep::NotifyAvailable);
    assert_eq!(heal_step(true, true, 1, 1, true, "wifi", true), HealStep::Skip);
    assert_eq!(heal_step(true, false, 1, 1, true, "", true), HealStep::Skip);
    assert_eq!(fleet_scores(None, None), (0, 0));
    assert_eq!(fleet_scores(Some(70), None), (70, 70));
    assert_eq!(fleet_scores(Some(70), Some(90)), (70, 90));
    assert_eq!(playbook_description("a\nb\nc\nd"), "a b c");
    assert!(heal_message("wifi", "net.dns").starts_with("activate_playbook wifi\n\nRun all steps autonomously. The health check 'net.dns' is failing."));
}

#[test]
fn health_categories_and_targets() {
    let names = vec!["backups".to_string(), "bogus".to_string(), "network".to_string()];
    let cats = enabled_categories(Some(&names));
    assert_eq!(cats, Some(vec![HealthCategory::Backups, HealthCategory::Network]));
    assert_eq!(enabled_categories(Some(&vec!["bogus".to_string()])), None);
    assert!(should_scan(&cats, HealthCategory::Network));
    assert!(!should_scan(&cats, HealthCategory::Security));
    assert!(should_scan(&None, HealthCategory::Security));
    assert_eq!(check_status(Some("pass")), CheckStatus::Pass);
    assert_eq!(check_status(Some("warn")), CheckStatus::Warn);
    assert_eq!(check_status(Some("error")), CheckStatus::Fail);
    assert_eq!(health_fix_target("updates.os", TargetOs::Windows), Ok(FixTarget::Link("ms-settings:windowsupdate")));
    assert_eq!(
        health_fix_target("security.sip", TargetOs::MacOs),
        Err("SIP must be changed from Recovery Mode (csrutil enable)".to_string())
    );
    assert_eq!(
        health_fix_target("updates.os", TargetOs::Linux),
        Err("No settings pane for check: updates.os".to_string())
    );
    let score = parse_json(r#"{"overall_score":87,"overall_grade":"B","categories":[1]}"#).unwrap();
    assert_eq!(checkin_fields(&score), (87, "B".to_string(), "[1]".to_string()));
    assert_eq!(checkin_fields(&Json::Null), (0, "F".to_string(), "[]".to_string()));
}

fn device(secret: &str) -> PairedDevice {
    PairedDevice {
        device_id: "id".to_string(),
        secret: secret.to_string(),
        device_name: "phone".to_string(),
        paired_at: "now".to_string(),
    }
}

#[test]
fn pairing_lockout_and_single_use() {
    let mut state = PairingState::new();
    state.offer_token("tok".to_string(), 1_000);
    for i in 0..5 {
        assert_eq!(state.pair("wrong", 1_000, device("s")), PairOutcome::Rejected);
        assert_eq!(state.failed_attempts, i + 1);
    }
    assert_eq!(state.pair("tok", 1_000, device("s")), PairOutcome::Locked);
    state.offer_token("tok2".to_string(), 2_000);
    assert_eq!(state.pair("tok2", 2_000 + 300_000, device("s")), PairOutcome::Rejected);
    assert_eq!(state.pair("tok2", 2_000 + 299_999, device("s")), PairOutcome::Paired);
    assert_eq!(state.pair("tok2", 2_001, device("s")), PairOutcome::Rejected);
    assert_eq!(pair_status(PairOutcome::Locked), 429);
    assert_eq!(pair_error(PairOutcome::Rejected), Some("Invalid or expired token"));
    assert_eq!(pairing_status(&state, 7892).device_name.as_deref(), Some("phone"));
}

#[test]
fn authorization_of_mobile_requests() {
    let d = device("sec");
    assert_eq!(authorize("/pair", None, ""), AuthDecision::Pass);
    assert_eq!(authorize("/status", None, "Bearer sec"), AuthDecision::NotPaired);
    assert_eq!(authorize("/status", Some(&d), "Bearer sec"), AuthDecision::Pass);
    assert_eq!(authorize("/status", Some(&d), "Bearer other"), AuthDecision::InvalidSecret);
    assert_eq!(authorize("/status", Some(&d), "sec"), AuthDecision::InvalidSecret);
}

#[test]
fn mobile_texts() {
    let t = new_pairing_token();
    assert_eq!(t.len(), 32);
    assert!(t.chars().all(|c| c.is_ascii_alphanumeric()));
    assert_eq!(new_device_secret().len(), 48);
    let qr = pairing_qr_data("10.0.0.2".to_string(), 7892, "abc".to_string());
    assert_eq!(qr.qr_json, "{\"host\":\"10.0.0.2\",\"port\":7892,\"token\":\"abc\",\"version\":1}");
    let req = TriageRequest { analysis: "Broken screen".to_string(), caption: Some("Help?".to_string()) };
    let m = triage_message(&req);
    assert!(m.contains("## Mobile Analysis\nBroken screen\n\n## User's Question\nHelp?\n\nPlease investigate"));
    assert_eq!(triage_title(&req), "Mobile Triage: Help?");
    let bare = TriageRequest { analysis: "x".to_string(), caption: None };
    assert_eq!(triage_title(&bare), "Mobile Triage: Photo Analysis");
}

#[test]
fn package_listing_sections() {
    assert_eq!(
        package_listing(None, None, None, None),
        "No package manager found (tried dpkg, rpm, flatpak, snap)."
    );
    let dpkg: String = (0..40).map(|i| format!("line{}\n", i)).collect();
    let out = package_listing(Some(&dpkg), Some("ignored"), Some("  org.app 1.0 \n"), Some("   "));
    assert!(out.starts_with("=== dpkg (35 packages) ===\nline0\n"));
    assert!(out.contains("line29\n... (10 more, use shell_run 'dpkg --list' for full output)"));
    assert!(!out.contains("line30"));
    assert!(out.ends_with("\n\n=== Flatpak ===\norg.app 1.0"));
    assert!(!out.contains("ignored"));
    let rpm = package_listing(None, Some("a 1\nb 2\n"), None, Some("core 16\n"));
    assert_eq!(rpm, "=== rpm (2 packages) ===\na 1\nb 2\n\n\n=== Snap ===\ncore 16");
}

#[test]
fn windows_cache_clearing_texts() {
    let (cache, backup) = win_cache_paths("C:\\Users\\me\\AppData\\Local", "Slack");
    assert_eq!(cache, "C:\\Users\\me\\AppData\\Local\\Slack");
    assert_eq!(backup, "C:\\Users\\me\\AppData\\Local\\..\\..\\..\\Temp\\.noah_backup_Slack");
    assert_eq!(
        clear_cache_report("Slack", "1.00 MB", &backup, &MoveOutcome::Moved),
        format!("Cleared app data for 'Slack' (was 1.00 MB).\nBackup saved to {}", backup)
    );
    assert_eq!(
        clear_cache_report("Slack", "?", &backup, &MoveOutcome::Failed(" denied \n".to_string())),
        "Failed to clear app data: denied"
    );
    let change = clear_cache_change("Slack", &cache, &backup);
    assert_eq!(change.undo_tool, "win_move_file");
    assert_eq!(change.description, format!("Cleared app data for 'Slack' from {}", cache));
}

#[test]
fn scripted_prompt_steps() {
    assert_eq!(prompt_step("[DONE]\nAll set"), PromptStep::Done);
    assert_eq!(
        prompt_step("[SITUATION]\nA\n[PLAN]\nB\n[ACTION:Do it]"),
        PromptStep::Continue("Go ahead".to_string())
    );
    assert_eq!(prompt_step("plain words"), PromptStep::Stop);
    assert_eq!(prompt_step(&runner_timeout_output()), PromptStep::Stop);
}

#[test]
fn system_prompt_layout_and_safety_rules() {
    let p = noah_desktop::prompts::system_prompt("OS: Linux", "");
    assert!(p.starts_with("You are Noah"));
    assert!(p.contains("## Current System\nOS: Linux\n\n## How You Work"));
    assert!(p.contains("## Safety — NEVER do these, even if the user asks"));
    assert!(p.contains("Modify boot configuration, disk partitions, firmware, or BIOS/UEFI settings."));
    assert!(p.contains("Run `rm`, `rmdir`, `shred`, or any file deletion command via `shell_run`."));
    assert!(p.ends_with("before proposing final completion."));
    let q = noah_desktop::prompts::system_prompt("OS: macOS", "playbooks/wifi.md");
    assert!(q.contains("OS: macOS\n\nplaybooks/wifi.md\n\n## How You Work"));
    assert!(q.contains("## Safety — NEVER do these, even if the user asks"));
}

#[test]
fn printer_and_queue_listings() {
    assert_eq!(
        noah_desktop::tool_output::printer_listing("", "lpstat: No destinations added.\n"),
        "No printers configured. CUPS may not be installed or running."
    );
    assert_eq!(noah_desktop::tool_output::printer_listing("", "  scheduler is not running \n"), "lpstat error: scheduler is not running");
    assert_eq!(noah_desktop::tool_output::printer_listing("  \n", ""), "No printers found.");
    assert_eq!(noah_desktop::tool_output::printer_listing("printer hp is idle.\n", "warn"), "printer hp is idle.\n");
    assert_eq!(noah_desktop::tool_output::print_queue_listing(" \n"), "No pending print jobs.");
    assert_eq!(noah_desktop::tool_output::print_queue_listing("hp-1 user 1024\n"), "hp-1 user 1024\n");
    assert_eq!(
        noah_desktop::tool_output::cups_restart_failure("Failed: Access denied\n"),
        "Failed to restart CUPS — insufficient privileges.\nFailed: Access denied"
    );
    assert_eq!(noah_desktop::tool_output::cups_restart_failure(" unit not found "), "Failed to restart CUPS: unit not found");
}

#[test]
fn meminfo_figures() {
    let m = "MemTotal:       16318480 kB\r\nMemFree:  1 kB\nMemAvailable:\t 8159240 kB\nSwapTotal: +42 kB\nSwapFree: 18446744073709551616 kB\nHuge:\n";
    assert_eq!(noah_desktop::tool_output::meminfo_kb(m, "MemTotal:"), Some(16318480));
    assert_eq!(noah_desktop::tool_output::meminfo_kb(m, "MemAvailable:"), Some(8159240));
    assert_eq!(noah_desktop::tool_output::meminfo_kb(m, "SwapTotal:"), Some(42));
    assert_eq!(noah_desktop::tool_output::meminfo_kb(m, "SwapFree:"), None);
    assert_eq!(noah_desktop::tool_output::meminfo_kb(m, "Huge:"), None);
    assert_eq!(noah_desktop::tool_output::meminfo_kb(m, "Missing:"), None);
    assert_eq!(noah_desktop::tool_output::meminfo_kb("Mem: x 5\nMem: 7", "Mem:"), None);
}

#[test]
fn triage_is_asked_only_after_the_checks() {
    assert!(triage_needed(true, false, 2, 3));
    assert!(!triage_needed(false, false, 2, 3));
    assert!(!triage_needed(true, true, 2, 3));
    assert!(!triage_needed(true, false, 0, 3));
    assert!(!triage_needed(true, false, 2, 0));
}
