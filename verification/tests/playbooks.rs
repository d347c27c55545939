use noah_desktop::json::Json;
use noah_desktop::playbooks::{
    bootstrapped_contents, overwrites_builtin, parse_frontmatter, ActivatePlaybookTool, PlaybookError, PlaybookFile,
    PlaybookRegistry,
};
use noah_desktop::shell::SafetyTier;

// ── Frontmatter parsing ──

#[test]
fn test_parse_frontmatter_valid() {
    let content = "---\nname: test-playbook\ndescription: A test playbook\n---\n\n# Body";
    let meta = parse_frontmatter(content).unwrap();
    assert_eq!(meta.name, "test-playbook");
    assert_eq!(meta.description, "A test playbook");
    assert_eq!(meta.platform, "all"); // default
    assert_eq!(meta.playbook_type, "user"); // default when type: absent
}

#[test]
fn test_parse_frontmatter_system_type() {
    let content = "---\nname: net\ndescription: Net diag\nplatform: macos\ntype: system\n---\n\n# Body";
    let meta = parse_frontmatter(content).unwrap();
    assert_eq!(meta.playbook_type, "system");
}

#[test]
fn test_parse_frontmatter_with_platform() {
    let content = "---\nname: test\ndescription: Test\nplatform: macos\n---\n\n# Body";
    let meta = parse_frontmatter(content).unwrap();
    assert_eq!(meta.platform, "macos");
}

#[test]
fn test_parse_frontmatter_no_frontmatter() {
    let content = "# Just a markdown file\nNo frontmatter here.";
    assert!(parse_frontmatter(content).is_none());
}

#[test]
fn test_parse_frontmatter_missing_name() {
    let content = "---\ndescription: No name field\n---\n\n# Body";
    assert!(parse_frontmatter(content).is_none());
}

#[test]
fn test_parse_frontmatter_missing_description() {
    let content = "---\nname: no-desc\n---\n\n# Body";
    assert!(parse_frontmatter(content).is_none());
}

#[test]
fn frontmatter_review_fields_and_trimming() {
    let content = "  \n---\n name:   spaced  \ndescription: d\nlast_reviewed: 2026-01-01\nauthor: Ann\n---\nbody";
    let meta = parse_frontmatter(content).unwrap();
    assert_eq!(meta.name, "spaced");
    assert_eq!(meta.last_reviewed.as_deref(), Some("2026-01-01"));
    assert_eq!(meta.author.as_deref(), Some("Ann"));
}

#[test]
fn frontmatter_unclosed_block_is_none() {
    assert!(parse_frontmatter("---\nname: x\ndescription: y\n").is_none());
}

// ── Registry ──

fn pb(name: &str, platform: &str) -> String {
    format!("---\nname: {}\ndescription: d\nplatform: {}\n---\n# {}", name, platform, name)
}

#[test]
fn registry_filters_by_platform_and_sorts_by_name() {
    let contents = vec![
        pb("zeta", "all"),
        pb("win-only", "windows"),
        "no frontmatter".to_string(),
        pb("alpha", "macos"),
        pb("mid", "all"),
    ];
    let registry = PlaybookRegistry::init("/kb/playbooks".to_string(), &contents, "macos");
    let names: Vec<&str> = registry.metas.iter().map(|m| m.name.as_str()).collect();
    assert_eq!(names, vec!["alpha", "mid", "zeta"]);
    assert!(registry.metas.iter().all(|m| m.platform == "macos" || m.platform == "all"));

    let win = PlaybookRegistry::init("/kb/playbooks".to_string(), &contents, "windows");
    let names: Vec<&str> = win.metas.iter().map(|m| m.name.as_str()).collect();
    assert_eq!(names, vec!["mid", "win-only", "zeta"]);
}

#[test]
fn builtin_refresh_spares_user_files() {
    assert!(overwrites_builtin(None));
    assert!(overwrites_builtin(Some("---\nname: a\ndescription: b\ntype: system\n---\n")));
    assert!(!overwrites_builtin(Some("---\nname: a\ndescription: b\ntype: user\n---\n")));
    // Frontmatter without a type is a user file.
    assert!(!overwrites_builtin(Some("---\nname: a\ndescription: b\n---\n")));
    // No frontmatter at all: refreshed.
    assert!(overwrites_builtin(Some("# plain")));
}

fn file(stem: &str, content: &str) -> PlaybookFile {
    PlaybookFile { stem: stem.to_string(), content: content.to_string() }
}

fn registry() -> PlaybookRegistry {
    PlaybookRegistry::init("/kb/playbooks".to_string(), &Vec::new(), "linux")
}

#[test]
fn read_playbook_by_name_and_by_stem() {
    let files = vec![
        file("network-diagnostics", "---\nname: network-diagnostics\ndescription: d\n---\n# Network Diagnostics"),
        file("corrupted-app-repair", "# Corrupted App Repair\nNo frontmatter."),
    ];
    let r = registry();
    assert!(r.read_playbook("network-diagnostics", &files).unwrap().contains("Network Diagnostics"));
    assert!(r.read_playbook("corrupted-app-repair", &files).unwrap().contains("Corrupted App Repair"));
}

#[test]
fn read_playbook_not_found_message() {
    let r = registry();
    let err = r.read_playbook("nonexistent", &Vec::new()).unwrap_err();
    assert_eq!(err, PlaybookError::NotFound("nonexistent".to_string()));
    let msg = err.message();
    assert!(msg.contains("not found"));
    assert!(msg.contains("list_knowledge"));
}

#[test]
fn read_playbook_dual_track_concatenation() {
    let files = vec![
        file("wifi-fix-user", "---\nname: wifi-fix\ndescription: mine\ntype: user\nlast_reviewed: 2026-01-01\n---\nMy extra steps"),
        file("wifi-fix", "---\nname: wifi-fix\ndescription: sys\ntype: system\n---\nSystem steps"),
    ];
    let content = registry().read_playbook("wifi-fix", &files).unwrap();
    assert!(content.contains("System steps"));
    assert!(content.contains("My extra steps"));
    assert!(content.contains("origin: system"));
    assert!(content.contains("origin: user"));
    assert!(content.contains("2026-01-01"));
    // Tracks in descending order of their names, separated by a rule.
    let expected = format!(
        "<!-- [origin: user, last updated: 2026-01-01] -->\n{}\n\n---\n\n<!-- [origin: system, last updated: unknown date] -->\n{}",
        files[0].content, files[1].content
    );
    assert_eq!(content, expected);
}

#[test]
fn test_activate_playbook_tool_is_read_only() {
    let tool = ActivatePlaybookTool::new(registry());
    assert_eq!(tool.safety_tier(), SafetyTier::ReadOnly);
    assert_eq!(tool.name(), "activate_playbook");
}

#[test]
fn activate_playbook_tool_loads_and_reports() {
    let tool = ActivatePlaybookTool::new(registry());
    let files = vec![file("net", "---\nname: net\ndescription: d\n---\n# Network Diagnostics")];
    let input = Json::Object(vec![("name".to_string(), Json::Str("net".to_string()))]);
    let result = tool.execute(&input, &files).unwrap();
    assert!(result.output.contains("Network Diagnostics"));
    match &result.data {
        Json::Object(fields) => {
            assert_eq!(fields[0].0, "playbook");
            assert!(matches!(&fields[0].1, Json::Str(n) if n == "net"));
            assert_eq!(fields[1].0, "loaded");
            assert!(matches!(fields[1].1, Json::Bool(true)));
        }
        _ => panic!("expected an object"),
    }
}

#[test]
fn activate_playbook_tool_errors() {
    let tool = ActivatePlaybookTool::new(registry());
    let missing = tool.execute(&Json::Object(Vec::new()), &Vec::new()).unwrap_err();
    assert_eq!(missing, PlaybookError::MissingName);
    assert!(missing.message().contains("Missing required parameter"));
    let input = Json::Object(vec![("name".to_string(), Json::Str("ghost".to_string()))]);
    let err = tool.execute(&input, &Vec::new()).unwrap_err();
    assert!(err.message().contains("not found"));
}

#[test]
fn test_custom_playbook_detected() {
    let custom = "---\nname: custom-test\ndescription: A custom playbook\n---\n\n# Custom";
    let registry = PlaybookRegistry::init("/kb/playbooks".to_string(), &vec![custom.to_string()], "macos");
    assert!(registry.metas.iter().any(|m| m.name == "custom-test"));
}

#[test]
fn test_custom_windows_playbook_filtered_on_macos() {
    let win_playbook = "---\nname: win-only\ndescription: Windows test\nplatform: windows\n---\n\n# Win";
    let contents = vec![win_playbook.to_string()];
    let registry = PlaybookRegistry::init("/kb/playbooks".to_string(), &contents, "macos");
    assert!(!registry.metas.iter().any(|m| m.name == "win-only"));
    let win_registry = PlaybookRegistry::init("/kb/playbooks".to_string(), &contents, "windows");
    assert!(win_registry.metas.iter().any(|m| m.name == "win-only"));
}

#[test]
fn test_read_playbook_by_filename_stem() {
    let user_playbook = "# Corrupted App Repair\n\nSteps to repair a corrupted macOS app.";
    let files = vec![file("corrupted-app-repair", user_playbook)];
    let registry = PlaybookRegistry::init("/kb/playbooks".to_string(), &vec![user_playbook.to_string()], "macos");
    let content = registry.read_playbook("corrupted-app-repair", &files).unwrap();
    assert!(content.contains("Corrupted App Repair"));
}

#[test]
fn test_read_playbook_dual_track_concatenation() {
    let system_pb = "---\nname: wifi-fix\ndescription: System wifi fix\nplatform: all\nlast_reviewed: 2026-01-01\ntype: system\n---\n\n# System steps";
    let user_pb = "---\nname: wifi-fix\ndescription: My notes\nplatform: all\ntype: user\n---\n\n# My extra steps";
    let files = vec![file("wifi-fix", system_pb), file("wifi-fix-user", user_pb)];
    let contents: Vec<String> = files.iter().map(|f| f.content.clone()).collect();
    let registry = PlaybookRegistry::init("/kb/playbooks".to_string(), &contents, "all");
    let content = registry.read_playbook("wifi-fix", &files).unwrap();
    assert!(content.contains("System steps"), "System content missing");
    assert!(content.contains("My extra steps"), "User content missing");
    assert!(content.contains("origin: system"));
    assert!(content.contains("origin: user"));
    assert!(content.contains("2026-01-01"), "Date annotation missing");
}

#[test]
fn test_activate_playbook_tool_not_found() {
    let tool = ActivatePlaybookTool::new(registry());
    let input = Json::Object(vec![("name".to_string(), Json::Str("nonexistent".to_string()))]);
    let err = tool.execute(&input, &Vec::new()).unwrap_err();
    assert!(err.message().contains("not found"));
}

#[test]
fn test_activate_playbook_tool_missing_param() {
    let tool = ActivatePlaybookTool::new(registry());
    let err = tool.execute(&Json::Object(Vec::new()), &Vec::new()).unwrap_err();
    assert!(err.message().contains("Missing required parameter"));
}

#[test]
fn bootstrap_keeps_user_files_and_refreshes_the_rest() {
    let builtin = "---\nname: network-diagnostics\ndescription: Network\nplatform: macos\ntype: system\n---\n\n# Current".to_string();
    let user_version = "---\nname: network-diagnostics\ndescription: My custom version\nplatform: macos\ntype: user\n---\n\n# My custom".to_string();
    let stale = "---\nname: network-diagnostics\ndescription: Stale version\nplatform: macos\ntype: system\n---\n\n# Old".to_string();
    let files = vec![
        (builtin.clone(), Some(user_version.clone())),
        (builtin.clone(), Some(stale)),
        (builtin.clone(), None),
        (builtin.clone(), Some("no frontmatter here".to_string())),
    ];
    let after = bootstrapped_contents(&files);
    assert_eq!(after, vec![user_version, builtin.clone(), builtin.clone(), builtin]);
}
