//! Auto-heal: which failing health checks may be healed, what the monitor
//! does with the triage's choice, and what it reports.
use vstd::prelude::*;

use crate::proactive::{check_interval_elapsed, spec_interval_elapsed};
use crate::text::{chars_of, joined, lines, lines_of, owned, push_str, str_eq, string_of_all};

verus! {

/// What the frontend receives when auto-heal starts.
#[derive(Debug, Clone)]
pub struct AutoHealPayload {
    pub check_id: String,
    pub playbook_slug: String,
    pub reason: String,
}

/// What the frontend receives when auto-heal completes.
#[derive(Debug, Clone)]
pub struct AutoHealCompletePayload {
    pub check_id: String,
    pub playbook_slug: String,
    pub success: bool,
    pub score_before: Option<i32>,
    pub score_after: Option<i32>,
    pub error: Option<String>,
}

/// What the frontend receives when auto-heal could fix an issue but is off.
#[derive(Debug, Clone)]
pub struct AutoHealAvailablePayload {
    pub check_id: String,
    pub playbook_slug: String,
    pub reason: String,
}

/// Hours before a check may be attempted again.
pub const ATTEMPT_COOLDOWN_HOURS: i64 = 24;

/// A setting that reads exactly `true`.
pub open spec fn setting_is_true(value: Option<Seq<char>>) -> bool {
    value == Some("true"@)
}

/// Whether a setting reads exactly `true` (auto-heal enabled, or a run in progress).
pub fn setting_true(value: Option<&str>) -> (b: bool)
    ensures
        b == setting_is_true(
            match value {
                Some(v) => Some(v@),
                None => None,
            },
        ),
{
    match value {
        Some(v) => str_eq(v, "true"),
        None => false,
    }
}

/// Whether a scan result is a failure: anything but `pass`.
pub fn is_failing(value_text: Option<&str>) -> (b: bool)
    ensures
        b == !(value_text matches Some(v) && v@ == "pass"@),
{
    match value_text {
        Some(v) => !str_eq(v, "pass"),
        None => true,
    }
}

/// The setting that records when a check was last attempted.
pub fn attempt_key(check_id: &str) -> (r: String)
    ensures
        r@ == "autoheal_attempted:"@ + check_id@,
{
    let mut s = owned("autoheal_attempted:");
    push_str(&mut s, check_id);
    s
}

/// Whether a check may be attempted: never attempted, or 24 hours ago or more
/// (an unreadable time allows it).
pub fn off_cooldown(attempted_at: Option<&str>, now_secs: i64, now_nanos: u32) -> (b: bool)
    ensures
        b == spec_interval_elapsed(
            match attempted_at {
                Some(t) => Some(t@),
                None => None,
            },
            now_secs,
            now_nanos,
            ATTEMPT_COOLDOWN_HOURS,
        ),
{
    check_interval_elapsed(attempted_at, now_secs, now_nanos, ATTEMPT_COOLDOWN_HOURS)
}

/// What the first three lines of a playbook say, joined by spaces.
pub open spec fn spec_playbook_description(content: Seq<char>) -> Seq<char> {
    let ls = lines(content);
    joined(ls.take(if ls.len() < 3 { ls.len() as int } else { 3 }), " "@)
}

/// The description offered to the triage for a playbook: its first three lines.
pub fn playbook_description(content: &str) -> (r: String)
    ensures
        r@ == spec_playbook_description(content@),
{
    let v = chars_of(content);
    let ls = lines_of(&v);
    let k: usize = if ls.len() < 3 {
        ls.len()
    } else {
        3
    };
    let mut parts: Vec<String> = Vec::new();
    let mut i: usize = 0;
    while i < k
        invariant
            i <= k <= ls@.len(),
            parts@.map_values(|s: String| s@) == ls@.map_values(|l: Vec<char>| l@).take(i as int),
        decreases k - i,
    {
        let ghost before = parts@.map_values(|s: String| s@);
        parts.push(string_of_all(&ls[i]));
        assert(parts@.map_values(|s: String| s@) =~= before.push(ls@[i as int]@));
        assert(ls@.map_values(|l: Vec<char>| l@).take(i + 1) =~= ls@.map_values(
            |l: Vec<char>| l@,
        ).take(i as int).push(ls@[i as int]@));
        i += 1;
    }
    crate::text::join_strings(&parts, " ")
}

/// The message that runs a playbook for a failing check without questions.
pub fn heal_message(slug: &str, check_id: &str) -> (r: String)
    ensures
        r@ == "activate_playbook "@ + slug@ + "\n\nRun all steps autonomously. The health check '"@
            + check_id@
            + "' is failing. Execute the playbook without asking questions — just run each step. If a step requires user approval, present it normally."@,
{
    let mut s = owned("activate_playbook ");
    push_str(&mut s, slug);
    push_str(&mut s, "\n\nRun all steps autonomously. The health check '");
    push_str(&mut s, check_id);
    push_str(
        &mut s,
        "' is failing. Execute the playbook without asking questions — just run each step. If a step requires user approval, present it normally.",
    );
    s
}

/// What the monitor does in an evaluation.
#[derive(Debug, Clone, Copy, PartialEq, Eq)]
pub enum HealStep {
    /// Nothing to do.
    Skip,
    /// Tell the user that a fix is available (auto-heal is off).
    NotifyAvailable,
    /// Run the chosen playbook.
    Run,
}

/// What an evaluation leads to: nothing without credentials, while a run is
/// in progress, without actionable failures or playbooks, or when the
/// triage declines (or names no playbook); else a run when auto-heal is on,
/// and a notice when it is off.
pub open spec fn spec_heal_step(
    has_auth: bool,
    running: bool,
    actionable: nat,
    playbooks: nat,
    should_heal: bool,
    slug: Seq<char>,
    auto_heal_on: bool,
) -> HealStep {
    if !has_auth || running || actionable == 0 || playbooks == 0 || !should_heal || slug.len()
        == 0 {
        HealStep::Skip
    } else if auto_heal_on {
        HealStep::Run
    } else {
        HealStep::NotifyAvailable
    }
}

/// Decide what an evaluation leads to (see `spec_heal_step`).
pub fn heal_step(
    has_auth: bool,
    running: bool,
    actionable: usize,
    playbooks: usize,
    should_heal: bool,
    slug: &str,
    auto_heal_on: bool,
) -> (r: HealStep)
    ensures
        r == spec_heal_step(
            has_auth,
            running,
            actionable as nat,
            playbooks as nat,
            should_heal,
            slug@,
            auto_heal_on,
        ),
{
    if !has_auth || running || actionable == 0 || playbooks == 0 || !should_heal
        || chars_of(slug).len() == 0 {
        HealStep::Skip
    } else if auto_heal_on {
        HealStep::Run
    } else {
        HealStep::NotifyAvailable
    }
}

/// The model is asked to triage only with credentials, no run in progress,
/// actionable failures and playbooks to choose from.
pub open spec fn spec_triage_needed(has_auth: bool, running: bool, actionable: nat, playbooks: nat) -> bool {
    has_auth && !running && actionable > 0 && playbooks > 0
}

/// Whether an evaluation asks the model to triage (see `spec_triage_needed`);
/// without it the evaluation ends there.
pub fn triage_needed(has_auth: bool, running: bool, actionable: usize, playbooks: usize) -> (b: bool)
    ensures
        b == spec_triage_needed(has_auth, running, actionable as nat, playbooks as nat),
{
    has_auth && !running && actionable > 0 && playbooks > 0
}

/// The scores reported to the fleet: before defaults to 0, after to before.
pub fn fleet_scores(score_before: Option<i32>, score_after: Option<i32>) -> (r: (i32, i32))
    ensures
        r.0 == (match score_before {
            Some(b) => b,
            None => 0,
        }),
        r.1 == (match score_after {
            Some(a) => a,
            None => r.0,
        }),
{
    let sb = match score_before {
        Some(b) => b,
        None => 0,
    };
    let sa = match score_after {
        Some(a) => a,
        None => sb,
    };
    (sb, sa)
}

} // verus!
