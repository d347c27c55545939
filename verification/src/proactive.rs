//! Proactive monitoring: when a diagnostic cycle may run, when a suggestion
//! may be shown, and what a suggestion carries.
use vstd::prelude::*;

use crate::text::{owned, push_str, str_eq};

verus! {

/// What the frontend receives with a proactive suggestion.
#[derive(Debug, Clone)]
pub struct SuggestionPayload {
    pub id: String,
    pub category: String,
    pub headline: String,
    pub detail: String,
}

/// The instant an RFC 3339 text names, as seconds since the epoch and the
/// nanoseconds within that second, or `None` when the text is not RFC 3339.
pub uninterp spec fn rfc3339_instant(text: Seq<char>) -> Option<(i64, u32)>;

/// Calls `chrono::DateTime::parse_from_rfc3339` and reads the parsed
/// instant's `timestamp` and `timestamp_subsec_nanos`. The instant is named
/// `rfc3339_instant` of the text; the grammar is not restated.
#[verifier::external_body]
pub(crate) fn parse_rfc3339(text: &str) -> (r: Option<(i64, u32)>)
    ensures
        r == rfc3339_instant(text@),
{
    chrono::DateTime::parse_from_rfc3339(text).ok().map(
        |t| (t.timestamp(), t.timestamp_subsec_nanos()),
    )
}

/// The largest number of hours a time span can hold (`i64::MAX` milliseconds).
pub const MAX_SPAN_HOURS: i64 = 2562047788015;

/// Whether the proactive setting allows a check: anything but `false`.
pub fn is_proactive_enabled(setting_value: Option<&str>) -> (b: bool)
    ensures
        b == !(setting_value matches Some(v) && v@ == "false"@),
{
    match setting_value {
        Some(v) => !str_eq(v, "false"),
        None => true,
    }
}

/// Nanoseconds from the instant (`secs`, `nanos`) to (`now_secs`, `now_nanos`).
pub open spec fn nanos_between(secs: i64, nanos: u32, now_secs: i64, now_nanos: u32) -> int {
    (now_secs - secs) * 1000000000 + (now_nanos - nanos)
}

/// At least `min_hours` have passed since the instant `last` (seconds and
/// nanoseconds) at the instant `now`; always when there is no such instant.
pub open spec fn spec_elapsed_since(
    last: Option<(i64, u32)>,
    now_secs: i64,
    now_nanos: u32,
    min_hours: i64,
) -> bool {
    match last {
        None => true,
        Some((s, n)) => nanos_between(s, n, now_secs, now_nanos) >= min_hours * 3600000000000,
    }
}

/// At least `min_hours` have passed since `last` at the instant `now`:
/// always when there was no previous check or its time cannot be read.
pub open spec fn spec_interval_elapsed(
    last: Option<Seq<char>>,
    now_secs: i64,
    now_nanos: u32,
    min_hours: i64,
) -> bool {
    match last {
        None => true,
        Some(t) => spec_elapsed_since(rfc3339_instant(t), now_secs, now_nanos, min_hours),
    }
}

/// Whether at least `min_hours` have passed since the instant `last` (see
/// `spec_elapsed_since`).
pub fn elapsed_since(last: Option<(i64, u32)>, now_secs: i64, now_nanos: u32, min_hours: i64) -> (b: bool)
    requires
        -MAX_SPAN_HOURS <= min_hours <= MAX_SPAN_HOURS,
    ensures
        b == spec_elapsed_since(last, now_secs, now_nanos, min_hours),
{
    match last {
        None => true,
        Some((s, n)) => {
            let elapsed: i128 = ((now_secs as i128) - (s as i128)) * 1000000000i128 + ((
            now_nanos as i128) - (n as i128));
            let needed: i128 = (min_hours as i128) * 3600000000000i128;
            elapsed >= needed
        },
    }
}

/// Whether enough time has passed since the last check (`now` as seconds
/// since the epoch and nanoseconds within the second); `true` when there was
/// no previous check or its timestamp cannot be read. The span is the plain
/// difference of the two instants.
pub fn check_interval_elapsed(
    last_check: Option<&str>,
    now_secs: i64,
    now_nanos: u32,
    min_hours: i64,
) -> (b: bool)
    requires
        -MAX_SPAN_HOURS <= min_hours <= MAX_SPAN_HOURS,
    ensures
        b == spec_interval_elapsed(
            match last_check {
                Some(t) => Some(t@),
                None => None,
            },
            now_secs,
            now_nanos,
            min_hours,
        ),
{
    let t = match last_check {
        Some(t) => t,
        None => return true,
    };
    elapsed_since(parse_rfc3339(t), now_secs, now_nanos, min_hours)
}

/// Whether a suggestion may be shown: none was shown in the last `min_hours`.
pub fn can_show_suggestion(last_shown: Option<&str>, now_secs: i64, now_nanos: u32, min_hours: i64) -> (b: bool)
    requires
        -MAX_SPAN_HOURS <= min_hours <= MAX_SPAN_HOURS,
    ensures
        b == spec_interval_elapsed(
            match last_shown {
                Some(t) => Some(t@),
                None => None,
            },
            now_secs,
            now_nanos,
            min_hours,
        ),
{
    check_interval_elapsed(last_shown, now_secs, now_nanos, min_hours)
}

/// Hours between diagnostic cycles.
pub const CHECK_INTERVAL_HOURS: i64 = 5;

/// Hours between shown suggestions.
pub const SUGGESTION_INTERVAL_HOURS: i64 = 24;

/// What the monitor does in a cycle, before it runs any tool.
#[derive(Debug, Clone, Copy, PartialEq, Eq)]
pub enum CycleStart {
    /// Nothing: no credentials, monitoring disabled, or the last check is too recent.
    Skip,
    /// Record the check and run the diagnostics.
    Run,
}

/// Whether a cycle runs: with credentials, when enabled, five hours after the last check.
pub fn cycle_start(
    has_auth: bool,
    enabled_setting: Option<&str>,
    last_check: Option<&str>,
    now_secs: i64,
    now_nanos: u32,
) -> (r: CycleStart)
    ensures
        (r == CycleStart::Run) == (has_auth && !(enabled_setting matches Some(v) && v@ == "false"@)
            && spec_interval_elapsed(
            match last_check {
                Some(t) => Some(t@),
                None => None,
            },
            now_secs,
            now_nanos,
            CHECK_INTERVAL_HOURS,
        )),
{
    if !has_auth {
        return CycleStart::Skip;
    }
    if !is_proactive_enabled(enabled_setting) {
        return CycleStart::Skip;
    }
    if !check_interval_elapsed(last_check, now_secs, now_nanos, CHECK_INTERVAL_HOURS) {
        return CycleStart::Skip;
    }
    CycleStart::Run
}

/// The section a tool's output adds to its category's diagnostics.
pub fn tool_section(tool_name: &str, output: &str) -> (r: String)
    ensures
        r@ == "--- "@ + tool_name@ + " ---\n"@ + output@ + "\n\n"@,
{
    let mut s = owned("--- ");
    push_str(&mut s, tool_name);
    push_str(&mut s, " ---\n");
    push_str(&mut s, output);
    push_str(&mut s, "\n\n");
    s
}

/// Whether an analysis is worth showing: noteworthy, with a headline.
pub fn worth_showing(analysis: &crate::llm::DiagnosticAnalysis) -> (b: bool)
    ensures
        b == (analysis.noteworthy && analysis.headline@.len() > 0),
{
    analysis.noteworthy && crate::text::chars_of(analysis.headline.as_str()).len() > 0
}

} // verus!
