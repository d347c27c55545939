use chrono::TimeZone;
use noah_desktop::proactive::{
    can_show_suggestion, check_interval_elapsed, cycle_start, elapsed_since, is_proactive_enabled, CycleStart,
};

fn parts(t: chrono::DateTime<chrono::Utc>) -> (i64, u32) {
    (t.timestamp(), t.timestamp_subsec_nanos())
}

fn elapsed(last: Option<&str>, now: chrono::DateTime<chrono::Utc>, hours: i64) -> bool {
    let (s, n) = parts(now);
    check_interval_elapsed(last, s, n, hours)
}

fn can_show(last: Option<&str>, now: chrono::DateTime<chrono::Utc>, hours: i64) -> bool {
    let (s, n) = parts(now);
    can_show_suggestion(last, s, n, hours)
}

// ── is_proactive_enabled ──

#[test]
fn test_enabled_default_when_no_setting() {
    assert!(is_proactive_enabled(None));
}

#[test]
fn test_enabled_when_set_true() {
    assert!(is_proactive_enabled(Some("true")));
}

#[test]
fn test_disabled_when_set_false() {
    assert!(!is_proactive_enabled(Some("false")));
}

#[test]
fn test_enabled_for_unexpected_value() {
    // Any value other than "false" is treated as enabled.
    assert!(is_proactive_enabled(Some("yes")));
    assert!(is_proactive_enabled(Some("")));
    assert!(is_proactive_enabled(Some("0")));
}

// ── check_interval_elapsed ──

#[test]
fn test_interval_elapsed_no_previous_check() {
    let now = chrono::Utc::now();
    assert!(elapsed(None, now, 5));
}

#[test]
fn test_interval_elapsed_recent_check_blocks() {
    let now = chrono::Utc::now();
    let one_hour_ago = (now - chrono::Duration::hours(1)).to_rfc3339();
    assert!(!elapsed(Some(&one_hour_ago), now, 5));
}

#[test]
fn test_interval_elapsed_old_check_allows() {
    let now = chrono::Utc::now();
    let six_hours_ago = (now - chrono::Duration::hours(6)).to_rfc3339();
    assert!(elapsed(Some(&six_hours_ago), now, 5));
}

#[test]
fn test_interval_elapsed_exactly_at_boundary() {
    let now = chrono::Utc::now();
    let five_hours_ago = (now - chrono::Duration::hours(5)).to_rfc3339();
    assert!(elapsed(Some(&five_hours_ago), now, 5));
}

#[test]
fn test_interval_elapsed_unparseable_timestamp_allows() {
    let now = chrono::Utc::now();
    assert!(elapsed(Some("not-a-timestamp"), now, 5));
}

#[test]
fn test_interval_elapsed_empty_string_allows() {
    let now = chrono::Utc::now();
    assert!(elapsed(Some(""), now, 5));
}

// ── can_show_suggestion (24h rate limit) ──

#[test]
fn test_can_show_never_shown_before() {
    let now = chrono::Utc::now();
    assert!(can_show(None, now, 24));
}

#[test]
fn test_can_show_shown_recently_blocks() {
    let now = chrono::Utc::now();
    let twelve_hours_ago = (now - chrono::Duration::hours(12)).to_rfc3339();
    assert!(!can_show(Some(&twelve_hours_ago), now, 24));
}

#[test]
fn test_can_show_shown_long_ago_allows() {
    let now = chrono::Utc::now();
    let two_days_ago = (now - chrono::Duration::hours(48)).to_rfc3339();
    assert!(can_show(Some(&two_days_ago), now, 24));
}

#[test]
fn test_can_show_exactly_at_24h() {
    let now = chrono::Utc::now();
    let exactly_24h = (now - chrono::Duration::hours(24)).to_rfc3339();
    assert!(can_show(Some(&exactly_24h), now, 24));
}

// ── Edge cases ──

#[test]
fn test_future_timestamp_blocks() {
    let now = chrono::Utc::now();
    let future = (now + chrono::Duration::hours(2)).to_rfc3339();
    assert!(!elapsed(Some(&future), now, 5));
}

#[test]
fn test_zero_hour_interval_always_allows() {
    let now = chrono::Utc::now();
    let just_now = now.to_rfc3339();
    assert!(elapsed(Some(&just_now), now, 0));
}

#[test]
fn test_different_timezone_offset_handled() {
    let now = chrono::Utc.with_ymd_and_hms(2026, 3, 5, 12, 0, 0).unwrap();
    let six_hours_ago_pst = "2026-03-05T00:00:00-06:00"; // = 06:00 UTC, 6h before now
    assert!(elapsed(Some(six_hours_ago_pst), now, 5));
}

#[test]
fn cycle_runs_only_when_due() {
    let now = chrono::Utc.with_ymd_and_hms(2026, 3, 5, 12, 0, 0).unwrap();
    let (s, n) = parts(now);
    assert_eq!(cycle_start(false, None, None, s, n), CycleStart::Skip);
    assert_eq!(cycle_start(true, Some("false"), None, s, n), CycleStart::Skip);
    assert_eq!(cycle_start(true, None, Some("2026-03-05T10:00:00Z"), s, n), CycleStart::Skip);
    assert_eq!(cycle_start(true, None, Some("2026-03-05T07:00:00Z"), s, n), CycleStart::Run);
    assert_eq!(cycle_start(true, Some("true"), None, s, n), CycleStart::Run);
}

#[test]
fn elapsed_since_instants() {
    assert!(elapsed_since(None, 0, 0, 24));
    assert!(elapsed_since(Some((0, 0)), 86_400, 0, 24));
    assert!(!elapsed_since(Some((0, 1)), 86_400, 0, 24));
    assert!(elapsed_since(Some((100, 500)), 100, 500, 0));
    assert!(!elapsed_since(Some((100, 0)), 3_699, 999_999_999, 1));
    assert!(elapsed_since(Some((200, 0)), 100, 0, -1));
}
