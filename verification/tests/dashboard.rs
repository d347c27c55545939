use noah_desktop::dashboard::{
    checkin_outcome, default_action_type, default_fleet_name, device_os_name, enroll_url,
    parse_enrollment_url, poll_outcome, CheckinOutcome, DashboardConfig, EnrollmentUrlError,
    PollOutcome,
};
use noah_desktop::shell::TargetOs;

#[test]
fn parse_enrollment_url_valid() {
    let (base, token) = parse_enrollment_url("https://dash.onnoah.app/enroll/abc123def456").unwrap();
    assert_eq!(base, "https://dash.onnoah.app");
    assert_eq!(token, "abc123def456");
}

#[test]
fn parse_enrollment_url_trailing_slash() {
    let (base, token) = parse_enrollment_url("https://example.com/enroll/tok123/").unwrap();
    assert_eq!(base, "https://example.com");
    assert_eq!(token, "tok123");
}

#[test]
fn parse_enrollment_url_invalid() {
    assert!(parse_enrollment_url("https://example.com").is_err());
    assert!(parse_enrollment_url("not-a-url").is_err());
    assert!(parse_enrollment_url("https://example.com/enroll/").is_err());
}

#[test]
fn parse_enrollment_url_trims_and_reports() {
    let (base, token) = parse_enrollment_url("  https://x.io/enroll/t//  ").unwrap();
    assert_eq!((base.as_str(), token.as_str()), ("https://x.io", "t"));
    let err = parse_enrollment_url("/enroll/tok").unwrap_err();
    assert_eq!(err, EnrollmentUrlError::Invalid);
    assert!(err.message().starts_with("Invalid enrollment URL"));
}

fn config() -> DashboardConfig {
    DashboardConfig {
        dashboard_url: "https://dash.example.com//".to_string(),
        device_token: "tok".to_string(),
        device_id: "dev".to_string(),
        fleet_name: default_fleet_name(),
        linked_at: "2026-01-01T00:00:00Z".to_string(),
        enabled_categories: None,
    }
}

#[test]
fn dashboard_endpoints() {
    let c = config();
    assert_eq!(c.checkin_url(), "https://dash.example.com/dashboard/checkin");
    assert_eq!(c.pending_actions_url(), "https://dash.example.com/dashboard/actions/pending");
    assert_eq!(c.action_status_url("a1"), "https://dash.example.com/dashboard/actions/a1/status");
    assert_eq!(c.verify_url("a1"), "https://dash.example.com/dashboard/actions/a1/verify");
    assert_eq!(c.auto_heal_url(), "https://dash.example.com/dashboard/auto-heal");
    assert_eq!(c.session_report_url(), "https://dash.example.com/dashboard/session-report");
    assert_eq!(c.bearer(), "Bearer tok");
    assert_eq!(enroll_url("https://d.io/"), "https://d.io/devices/enroll");
    assert!(c.fleet_name_changed("Renamed"));
    assert!(!c.fleet_name_changed("My Fleet"));
}

#[test]
fn dashboard_defaults_and_outcomes() {
    assert_eq!(default_fleet_name(), "My Fleet");
    assert_eq!(default_action_type(), "hint");
    assert_eq!(device_os_name(TargetOs::MacOs), "macOS");
    assert_eq!(device_os_name(TargetOs::Linux), "Linux");
    assert_eq!(
        checkin_outcome(401, ""),
        CheckinOutcome::Revoked("Device removed from fleet".to_string())
    );
    assert_eq!(
        checkin_outcome(500, "boom"),
        CheckinOutcome::Failed("Checkin failed: boom".to_string())
    );
    assert_eq!(checkin_outcome(200, ""), CheckinOutcome::Accepted);
    assert_eq!(poll_outcome(401), PollOutcome::Revoked);
    assert_eq!(poll_outcome(503), PollOutcome::NoActions);
    assert_eq!(poll_outcome(204), PollOutcome::Accepted);
}

#[test]
fn enrollment_failure_names_status() {
    let m = noah_desktop::dashboard::enrollment_failed_message(404, "nope");
    assert_eq!(m, "Enrollment failed (404 Not Found): nope");
}

#[test]
fn enrollment_url_round_trip() {
    for base in ["https://dash.example.com", "http://10.0.0.5:8080/noah"] {
        for token in ["abc123", "t-9_x"] {
            let url = format!("{}/enroll/{}", base, token);
            assert_eq!(parse_enrollment_url(&url).unwrap(), (base.to_string(), token.to_string()));
            let url = format!("{}/", url);
            assert_eq!(parse_enrollment_url(&url).unwrap(), (base.to_string(), token.to_string()));
        }
    }
}
