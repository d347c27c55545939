//! Properties that span the library's functions: what every step keeps, what
//! holds after a sequence of calls, and what one call implies for the next.
use vstd::prelude::*;

use crate::autoheal::{ATTEMPT_COOLDOWN_HOURS, spec_heal_step, spec_triage_needed, HealStep};
use crate::consumer::{spec_is_paywalled, spec_within_grace};
use crate::fleet_policy::{combined_effect, rule_effect, spec_restrictiveness, PolicyRule, SafetyEffect};
use crate::host_info::{uppers, win_allowed_prefixes, win_forbidden_prefixes, linux_allowed_prefixes, linux_forbidden_prefixes, prefixed_by_any, spec_linux_path_allowed, spec_win_path_allowed};
use crate::assistant_ui::{
    action_type_of, json_candidate, ui_json_is, ui_value_is, AssistantActionType, AssistantUiPayload,
};
use crate::json::{spec_get, str_field, Json};
use crate::consumer::{signed_in, spec_stored_token, FileRead};
use crate::llm::spec_friendly_api_error;
use crate::shell::{spec_truncated, SafetyTier, bare_command, common_patterns, dangerous_lower, matches_any, platform_patterns, spec_is_dangerous, TargetOs};
use crate::text::{
    contains, ends_with, find, nat_decimal, find_from, is_ws, lemma_find_iff_contains, trim_end, trim_start, lemma_trim_bounds, lemma_trim_idempotent,
    occurs_at, starts_with, trim, case_fold_upper, ascii_lower, ascii_text, ascii_upper, case_fold,
};
use crate::context::{kept_sections, spec_compression_split, RECENT_MESSAGES_TO_KEEP};
use crate::mobile::{carries_secret, is_open_path, spec_pair, token_valid, PairOutcome, PairedDevice, PairingState, MAX_FAILED_ATTEMPTS};
use crate::order::{lemma_text_lt_asymmetric, text_lt};
use crate::playbook_runtime::{step, views, fires, first_firing, run_events, FsmSpec, FsmTransitionSpec};
use crate::playbooks::{has_meta, spec_overwrites_builtin, fm_value, kept_names, kept_on, meta_of, registry_metas, PlaybookMeta};
use crate::proactive::{CHECK_INTERVAL_HOURS, SUGGESTION_INTERVAL_HOURS, nanos_between, rfc3339_instant, spec_interval_elapsed};
use crate::tools::{tool_lookup, ToolSpec};
use crate::dashboard::{enrollment_text, spec_enrollment};
use crate::llm::without_trailing_slashes;
use crate::turn::{spec_plan, TurnPlan};
use crate::llm::{ResponseBlock};
use crate::llm::{
    context_limit_phrases, is_retryable, spec_is_context_limit_error, spec_post_step, ContentBlock, FailedPost, MAX_RETRIES,
};
use crate::turn::{spec_is_context_failure, protocol_action_is, TurnAction, MAX_UI_PROTOCOL_RETRIES};
use crate::prompts::{
    knowledge_section, prompt_tail, BOOT_RULE, HOW_YOU_WORK_HEADING, DELETION_RULE, PROMPT_GUIDE, PROMPT_HEAD,
    SAFETY_HEADING, SAFETY_MIDDLE, SAFETY_OPENING,
};

verus! {

proof fn lemma_first_firing_member(ts: Seq<FsmTransitionSpec>, state: Seq<char>, event: Seq<char>)
    ensures
        first_firing(ts, state, event) matches Some(t) ==> exists|i: int|
            0 <= i < ts.len() && #[trigger] ts[i] == t,
    decreases ts.len(),
{
    if ts.len() > 0 {
        lemma_first_firing_member(ts.drop_first(), state, event);
        if first_firing(ts, state, event) is Some && first_firing(ts, state, event) != Some(ts[0]) {
            let t = first_firing(ts, state, event).unwrap();
            let i = choose|i: int| 0 <= i < ts.drop_first().len() && ts.drop_first()[i] == t;
            assert(ts[i + 1] == t);
        } else if first_firing(ts, state, event) == Some(ts[0]) {
            assert(ts[0] == first_firing(ts, state, event).unwrap());
        }
    }
}

/// Whatever the events, the machine stands in its initial state or in the
/// target state of one of its transitions.
pub proof fn law_state_is_reachable(spec: FsmSpec, events: Seq<Seq<char>>)
    ensures
        run_events(spec, events) == spec.initial_state@ || exists|i: int|
            0 <= i < spec.transitions@.len() && (#[trigger] spec.transitions@[i]).to@ == run_events(
                spec,
                events,
            ),
    decreases events.len(),
{
    if events.len() > 0 {
        law_state_is_reachable(spec, events.drop_last());
        let prev = run_events(spec, events.drop_last());
        lemma_first_firing_member(spec.transitions@, prev, events.last());
        if first_firing(spec.transitions@, prev, events.last()) is Some {
            let t = first_firing(spec.transitions@, prev, events.last()).unwrap();
            let i = choose|i: int| 0 <= i < spec.transitions@.len() && spec.transitions@[i] == t;
            assert(spec.transitions@[i].to@ == run_events(spec, events));
        }
    }
}

/// An event that no transition out of the current state lists leaves the
/// state where it is.
pub proof fn law_unrecognized_event_keeps_state(spec: FsmSpec, events: Seq<Seq<char>>, event: Seq<char>)
    requires
        first_firing(spec.transitions@, run_events(spec, events), event) is None,
    ensures
        run_events(spec, events.push(event)) == run_events(spec, events),
{
    assert(events.push(event).drop_last() =~= events);
}

/// After five failed pairing attempts, every request is refused as locked
/// and changes nothing, whatever its token.
pub proof fn law_pairing_lockout(state: PairingState, token: Seq<char>, now_ms: u64, device: PairedDevice)
    requires
        state.failed_attempts >= MAX_FAILED_ATTEMPTS,
    ensures
        spec_pair(state, token, now_ms, device) == (state, PairOutcome::Locked),
{
}

/// A refused token counts one failure, so the fifth refusal in a row locks
/// pairing: the next request is locked whatever its token.
pub proof fn law_fifth_refusal_locks(
    state: PairingState,
    token: Seq<char>,
    now_ms: u64,
    device: PairedDevice,
    next_token: Seq<char>,
    next_now_ms: u64,
    next_device: PairedDevice,
)
    requires
        state.failed_attempts == MAX_FAILED_ATTEMPTS - 1,
        !token_valid(state, token, now_ms),
    ensures
        spec_pair(state, token, now_ms, device).1 == PairOutcome::Rejected,
        spec_pair(spec_pair(state, token, now_ms, device).0, next_token, next_now_ms, next_device).1
            == PairOutcome::Locked,
{
}

/// A pairing token pairs at most once: after it has paired a phone, no
/// request pairs again until a new token is offered.
pub proof fn law_token_pairs_once(
    state: PairingState,
    token: Seq<char>,
    now_ms: u64,
    device: PairedDevice,
    next_token: Seq<char>,
    next_now_ms: u64,
    next_device: PairedDevice,
)
    requires
        spec_pair(state, token, now_ms, device).1 == PairOutcome::Paired,
    ensures
        spec_pair(spec_pair(state, token, now_ms, device).0, next_token, next_now_ms, next_device).1
            != PairOutcome::Paired,
{
}

/// The total length of a list of texts.
pub open spec fn total_len(ss: Seq<Seq<char>>) -> int
    decreases ss.len(),
{
    if ss.len() == 0 {
        0
    } else {
        total_len(ss.drop_last()) + ss.last().len()
    }
}

/// The transcript given to the summarizer keeps the most recent sections
/// (a suffix of them, in order) and their total length stays within the budget.
pub proof fn law_transcript_within_budget(cs: Seq<Seq<char>>, budget: int)
    requires
        budget >= 0,
    ensures
        total_len(kept_sections(cs, budget)) <= budget,
        kept_sections(cs, budget).len() <= cs.len(),
        kept_sections(cs, budget) == cs.subrange(
            cs.len() - kept_sections(cs, budget).len(),
            cs.len() as int,
        ),
    decreases cs.len(),
{
    if cs.len() > 0 && cs.last().len() <= budget {
        law_transcript_within_budget(cs.drop_last(), budget - cs.last().len());
        let k = kept_sections(cs.drop_last(), budget - cs.last().len());
        assert(k.push(cs.last()).drop_last() =~= k);
        assert(k.push(cs.last()) =~= cs.subrange(cs.len() - (k.len() + 1), cs.len() as int));
    } else if cs.len() > 0 {
        assert(cs.subrange(cs.len() as int, cs.len() as int) =~= Seq::<Seq<char>>::empty());
    }
}

/// Compression always keeps the recent messages verbatim: the last six, or
/// when forced after a context-limit error the last four.
pub proof fn law_compression_keeps_recent(count: int, tokens: int, force: bool)
    ensures
        spec_compression_split(count, tokens, force) matches Some(k) ==> count - k == (if force {
            4
        } else {
            RECENT_MESSAGES_TO_KEEP as int
        }) && k >= 1,
{
}

/// A cached entitlement trusted offline at some time was trusted at every
/// earlier time since it was fetched.
pub proof fn law_offline_grace_is_a_window(fetched_at: i64, earlier: i64, later: i64)
    requires
        earlier <= later,
        spec_within_grace(fetched_at, later),
    ensures
        spec_within_grace(fetched_at, earlier),
{
}

/// Once enough time has passed since a check, it stays so as time goes on.
pub proof fn law_interval_stays_elapsed(
    last: Option<Seq<char>>,
    secs: i64,
    nanos: u32,
    later_secs: i64,
    later_nanos: u32,
    min_hours: i64,
)
    requires
        (secs as int) * 1000000000 + nanos <= (later_secs as int) * 1000000000 + later_nanos,
        spec_interval_elapsed(last, secs, nanos, min_hours),
    ensures
        spec_interval_elapsed(last, later_secs, later_nanos, min_hours),
{
}

/// Every playbook in the registry targets the registry's platform or all
/// platforms, and the registry lists them by name.
pub proof fn law_registry_platform_and_order(metas: Seq<PlaybookMeta>, contents: Seq<String>, platform: Seq<char>)
    requires
        registry_metas(metas, contents, platform),
    ensures
        forall|a: int| 0 <= a < metas.len() ==> (#[trigger] metas[a]).platform@ == "all"@ || metas[a].platform@ == platform,
        forall|a: int, b: int| 0 <= a < b < metas.len() ==> !text_lt(#[trigger] metas[b].name@, #[trigger] metas[a].name@),
{
    let (kept, perm) = choose|kept: Seq<int>, perm: Seq<int>|
        {
            &&& forall|a: int, b: int| 0 <= a < b < kept.len() ==> kept[a] < kept[b]
            &&& forall|a: int| 0 <= a < kept.len() ==> 0 <= #[trigger] kept[a] < contents.len()
            &&& forall|j: int|
                0 <= j < contents.len() ==> (kept_on(#[trigger] contents[j]@, platform)
                    <==> kept.contains(j))
            &&& crate::order::is_permutation(perm, kept.len() as int)
            &&& metas.len() == kept.len()
            &&& forall|a: int|
                0 <= a < perm.len() ==> meta_of(#[trigger] metas[a], contents[kept[perm[a]]]@)
            &&& crate::order::stable_sorted(kept_names(contents, kept), perm, false)
        };
    assert forall|a: int| 0 <= a < metas.len() implies (#[trigger] metas[a]).platform@ == "all"@
        || metas[a].platform@ == platform by {
        let x = perm[a];
        let j = kept[x];
        assert(meta_of(metas[a], contents[j]@));
        assert(kept.contains(j));
        assert(kept_on(contents[j]@, platform));
    }
    assert forall|a: int, b: int| 0 <= a < b < metas.len() implies !text_lt(
        #[trigger] metas[b].name@,
        #[trigger] metas[a].name@,
    ) by {
        assert(meta_of(metas[a], contents[kept[perm[a]]]@));
        assert(meta_of(metas[b], contents[kept[perm[b]]]@));
        assert(kept_names(contents, kept)[perm[a]] == metas[a].name@);
        assert(kept_names(contents, kept)[perm[b]] == metas[b].name@);
    }
}

/// A tool registered under a name no earlier tool has is the one found by that name.
pub proof fn law_registered_tool_is_found(tools: Seq<ToolSpec>, tool: ToolSpec)
    requires
        tool_lookup(tools, tool.name@) is None,
    ensures
        tool_lookup(tools.push(tool), tool.name@) == Some(tool),
    decreases tools.len(),
{
    if tools.len() > 0 {
        assert(tools.push(tool).drop_first() =~= tools.drop_first().push(tool));
        assert(tools.push(tool)[0] == tools[0]);
        law_registered_tool_is_found(tools.drop_first(), tool);
    } else {
        assert(tools.push(tool)[0] == tool);
    }
}

/// A file read never reaches the kernel's memory, the devices or the boot
/// files, whatever else the path says.
pub proof fn law_protected_linux_paths_refused(path: Seq<char>)
    requires
        starts_with(path, "/proc/kcore"@) || starts_with(path, "/proc/kmem"@) || starts_with(
            path,
            "/dev/"@,
        ) || starts_with(path, "/boot/"@),
    ensures
        !spec_linux_path_allowed(path),
{
    let fs = crate::host_info::linux_forbidden_prefixes();
    if starts_with(path, "/proc/kcore"@) {
        assert(starts_with(path, fs[0]));
    } else if starts_with(path, "/proc/kmem"@) {
        assert(starts_with(path, fs[1]));
    } else if starts_with(path, "/dev/"@) {
        assert(starts_with(path, fs[2]));
    } else {
        assert(starts_with(path, fs[3]));
    }
}

/// Whether a Windows path may be read does not depend on its letter case:
/// two paths that upper-case alike are both readable or both refused.
pub proof fn law_windows_paths_ignore_case(a: Seq<char>, b: Seq<char>, env_dirs: Seq<Seq<char>>)
    requires
        case_fold_upper(a) == case_fold_upper(b),
    ensures
        spec_win_path_allowed(a, env_dirs) == spec_win_path_allowed(b, env_dirs),
{
}

/// Whether a command is dangerous depends only on its lower-cased text: two
/// commands that lower-case alike are both flagged or both not.
pub proof fn law_dangerous_ignores_case(a: Seq<char>, b: Seq<char>, os: TargetOs)
    requires
        case_fold(a) == case_fold(b),
    ensures
        spec_is_dangerous(a, os) == spec_is_dangerous(b, os),
{
}

/// In particular two ASCII commands that differ only in the case of their
/// letters (such as `SUDO LS` and `sudo ls`) are both flagged or both not.
pub proof fn law_dangerous_ignores_ascii_case(a: Seq<char>, b: Seq<char>, os: TargetOs)
    requires
        ascii_text(a),
        ascii_text(b),
        ascii_lower(a) == ascii_lower(b),
    ensures
        spec_is_dangerous(a, os) == spec_is_dangerous(b, os),
{
}

proof fn lemma_contains_in_middle(s: Seq<char>, t: Seq<char>, u: Seq<char>, q: Seq<char>)
    requires
        contains(t, q),
    ensures
        contains(s + t + u, q),
{
    let j = choose|j: int| occurs_at(t, q, j);
    let w = s + t + u;
    assert(w.subrange(s.len() + j, s.len() + j + q.len()) =~= t.subrange(j, j + q.len()));
    assert(occurs_at(w, q, s.len() + j));
}

/// Wrapping a (lower-cased) command that holds a dangerous pattern in more
/// text never makes it look safe.
pub proof fn law_flagged_pattern_survives_wrapping(s: Seq<char>, t: Seq<char>, u: Seq<char>, os: TargetOs)
    requires
        matches_any(t, common_patterns()) || matches_any(t, platform_patterns(os)),
    ensures
        dangerous_lower(s + t + u, os),
{
    if matches_any(t, common_patterns()) {
        let i = choose|i: int|
            0 <= i < common_patterns().len() && contains(t, case_fold(#[trigger] common_patterns()[i]));
        lemma_contains_in_middle(s, t, u, case_fold(common_patterns()[i]));
        assert(matches_any(s + t + u, common_patterns()));
    } else {
        let i = choose|i: int|
            0 <= i < platform_patterns(os).len() && contains(
                t,
                case_fold(#[trigger] platform_patterns(os)[i]),
            );
        lemma_contains_in_middle(s, t, u, case_fold(platform_patterns(os)[i]));
        assert(matches_any(s + t + u, platform_patterns(os)));
    }
}

/// The statuses whose message is fixed.
pub open spec fn known_status(status: u16) -> bool {
    status == 401 || status == 403 || status == 429 || status == 500 || status == 502 || status
        == 503 || status == 529
}

proof fn lemma_char_absent(m: Seq<char>, p: Seq<char>, k: int)
    requires
        0 <= k < p.len(),
        forall|j: int| 0 <= j < m.len() ==> m[j] != p[k],
    ensures
        !contains(m, p),
{
    if contains(m, p) {
        let i = choose|i: int| occurs_at(m, p, i);
        assert(m.subrange(i, i + p.len())[k] == m[i + k]);
    }
}

proof fn lemma_pair_absent(m: Seq<char>, p: Seq<char>, k: int)
    requires
        0 <= k,
        k + 1 < p.len(),
        forall|j: int| 0 <= j < m.len() - 1 ==> !(#[trigger] m[j] == p[k] && m[j + 1] == p[k + 1]),
    ensures
        !contains(m, p),
{
    if contains(m, p) {
        let i = choose|i: int| occurs_at(m, p, i);
        assert(m.subrange(i, i + p.len())[k] == m[i + k]);
        assert(m.subrange(i, i + p.len())[k + 1] == m[i + k + 1]);
    }
}

/// For a known status the friendly message does not depend on the body and
/// never shows the raw `Anthropic API error` text; for any other status it
/// shows the status number and ends with the body as sent.
pub proof fn law_friendly_error_body(status: u16, a: Seq<char>, b: Seq<char>)
    ensures
        known_status(status) ==> spec_friendly_api_error(status, a) == spec_friendly_api_error(
            status,
            b,
        ),
        known_status(status) ==> !contains(spec_friendly_api_error(status, a), "Anthropic API error"@),
        !known_status(status) ==> contains(spec_friendly_api_error(status, a), nat_decimal(status as nat)),
        !known_status(status) ==> ends_with(spec_friendly_api_error(status, a), a),
{
    let p = "Anthropic API error"@;
    reveal_strlit("Anthropic API error");
    let m = spec_friendly_api_error(status, a);
    if status == 401 {
        reveal_strlit("Your API key is invalid or has been revoked. Please check it in Settings.");
        assert forall|j: int| 0 <= j < m.len() implies m[j] != p[6] by {}
        lemma_char_absent(m, p, 6);
    } else if status == 403 {
        reveal_strlit(
            "Your API key doesn't have permission for this request. Check your Anthropic account.",
        );
        assert forall|j: int| 0 <= j < m.len() - 1 implies !(#[trigger] m[j] == p[13] && m[j + 1] == p[14]) by {}
        lemma_pair_absent(m, p, 13);
    } else if status == 429 {
        reveal_strlit("Too many requests — the model service is rate-limited. Wait a moment and try again.");
        assert forall|j: int| 0 <= j < m.len() implies m[j] != p[0] by {}
        lemma_char_absent(m, p, 0);
    } else if status == 500 || status == 502 || status == 503 {
        reveal_strlit("The model service is having temporary issues. Please try again in a minute.");
        assert forall|j: int| 0 <= j < m.len() implies m[j] != p[0] by {}
        lemma_char_absent(m, p, 0);
    } else if status == 529 {
        reveal_strlit("The model service is currently overloaded. Please try again in a few minutes.");
        assert forall|j: int| 0 <= j < m.len() implies m[j] != p[0] by {}
        lemma_char_absent(m, p, 0);
    } else {
        let head = "Unexpected API error ("@;
        let d = nat_decimal(status as nat);
        assert(m.subrange(m.len() - a.len(), m.len() as int) =~= a);
        assert(m.subrange(head.len() as int, (head.len() + d.len()) as int) =~= d);
        assert(occurs_at(m, d, head.len() as int));
    }
}

/// A session token written to the session file (as `session_file_text`
/// gives it, trimmed) is what a later read of that file gives, so the user is
/// signed in; once the file is deleted, the user is not.
pub proof fn law_session_token_reads_back(token: Seq<char>, written: String)
    requires
        trim(token).len() > 0,
        written@ == trim(token),
    ensures
        signed_in(FileRead::Contents(written)),
        !signed_in(FileRead::NotFound),
        spec_stored_token(FileRead::Contents(written), "session"@) == Ok::<
            Option<Seq<char>>,
            Seq<char>,
        >(Some(trim(token))),
        spec_stored_token(FileRead::NotFound, "session"@) == Ok::<Option<Seq<char>>, Seq<char>>(
            None,
        ),
{
    lemma_trim_idempotent(token);
}

/// A reply without an opening brace yields no JSON UI payload.
pub proof fn law_brace_free_reply_has_no_json_payload(text: Seq<char>, r: Option<AssistantUiPayload>)
    requires
        forall|i: int| 0 <= i < text.len() ==> text[i] != '{',
        ui_json_is(r, text),
    ensures
        r is None,
{
    reveal_strlit("{");
    reveal_strlit("```json");
    reveal_strlit("```");
    lemma_find_iff_contains(text, "{"@);
    if find(text, "{"@) is Some {
        let k = find(text, "{"@).unwrap();
        assert(text.subrange(k, k + 1)[0] == text[k]);
    }
    lemma_find_iff_contains(text, "```json"@);
    match json_candidate(text) {
        Some(c) => {
            let x = match find(text, "```json"@) {
                Some(start) => {
                    let rest = text.subrange(start + 7, text.len() as int);
                    lemma_find_iff_contains(rest, "```"@);
                    let end = find(rest, "```"@).unwrap();
                    let x = rest.subrange(0, end);
                    assert forall|i: int| 0 <= i < x.len() implies x[i] != '{' by {
                        assert(x[i] == text[start + 7 + i]);
                    }
                    x
                },
                None => text,
            };
            assert(c == trim(x));
            let (a, b) = lemma_trim_bounds(x);
            if starts_with(c, "{"@) {
                assert(c[0] == x[a]);
                assert(c.subrange(0, 1)[0] == c[0]);
            }
        },
        None => {},
    }
}

/// Whatever the system description and the knowledge table of contents,
/// the system prompt carries the safety heading, the rule against touching
/// boot configuration and firmware, and the rule against deleting files
/// through the shell.
pub proof fn law_prompt_keeps_safety_rules(os_context: Seq<char>, knowledge_toc: Seq<char>)
    ensures
        ({
            let p = PROMPT_HEAD@ + os_context + knowledge_section(knowledge_toc) + prompt_tail();
            &&& contains(p, SAFETY_HEADING@)
            &&& contains(p, BOOT_RULE@)
            &&& contains(p, DELETION_RULE@)
        }),
{
    let pre = PROMPT_HEAD@ + os_context + knowledge_section(knowledge_toc) + HOW_YOU_WORK_HEADING@
        + PROMPT_GUIDE@;
    let p = PROMPT_HEAD@ + os_context + knowledge_section(knowledge_toc) + prompt_tail();
    let i = pre.len() as int;
    let j = i + SAFETY_HEADING@.len() + SAFETY_OPENING@.len();
    let k = j + BOOT_RULE@.len() + SAFETY_MIDDLE@.len();
    assert(p.subrange(i, i + SAFETY_HEADING@.len()) =~= SAFETY_HEADING@);
    assert(occurs_at(p, SAFETY_HEADING@, i));
    assert(p.subrange(j, j + BOOT_RULE@.len()) =~= BOOT_RULE@);
    assert(occurs_at(p, BOOT_RULE@, j));
    assert(p.subrange(k, k + DELETION_RULE@.len()) =~= DELETION_RULE@);
    assert(occurs_at(p, DELETION_RULE@, k));
}

proof fn lemma_find_from_in_prefix(a: Seq<char>, b: Seq<char>, p: Seq<char>, i: int)
    requires
        a.len() <= b.len(),
        b.subrange(0, a.len() as int) == a,
        find_from(a, p, i) is Some,
    ensures
        find_from(b, p, i) == find_from(a, p, i),
    decreases a.len() + 1 - i,
{
    if 0 <= i && i + p.len() <= a.len() {
        assert(b.subrange(i, i + p.len()) =~= a.subrange(i, i + p.len()));
        if !occurs_at(a, p, i) {
            lemma_find_from_in_prefix(a, b, p, i + 1);
        }
    }
}

/// An enrollment URL made of a base URL, `/enroll/` and a token reads back
/// as that base and token, with or without one trailing slash; the base is
/// non-empty, starts with no white space and holds no earlier `/enroll/`,
/// and the token is non-empty and ends in neither white space nor a slash.
pub proof fn law_enrollment_url_round_trip(base: Seq<char>, token: Seq<char>)
    requires
        base.len() > 0,
        !is_ws(base[0]),
        find(base + "/enroll/"@, "/enroll/"@) == Some(base.len() as int),
        token.len() > 0,
        !is_ws(token.last()),
        token.last() != '/',
    ensures
        spec_enrollment(base + "/enroll/"@ + token) == Some((base, token)),
        spec_enrollment(base + "/enroll/"@ + token + "/"@) == Some((base, token)),
{
    reveal_strlit("/enroll/");
    reveal_strlit("/");
    let head = base + "/enroll/"@;
    let u = head + token;
    let u2 = u + "/"@;
    assert(u[0] == base[0]);
    assert(u.last() == token.last());
    assert(trim_start(u) == u);
    assert(trim_end(u) == u);
    assert(without_trailing_slashes(u) == u);
    assert(enrollment_text(u) == u);
    assert(u2[0] == base[0]);
    assert(u2.last() == '/');
    assert(!is_ws('/'));
    assert(trim_start(u2) == u2);
    assert(trim_end(u2) == u2);
    assert(u2.drop_last() =~= u);
    assert(without_trailing_slashes(u2) == u);
    assert(enrollment_text(u2) == u);
    assert(u.subrange(0, head.len() as int) =~= head);
    lemma_find_from_in_prefix(head, u, "/enroll/"@, 0);
    assert(u.subrange(0, base.len() as int) =~= base);
    assert(u.subrange(base.len() + 8int, u.len() as int) =~= token);
}

/// After a broken UI protocol the model is asked again only while fewer than
/// three errors were counted; at the third the turn ends, answered with the
/// fallback. Since every such step counts one more error, a turn asks again
/// after protocol errors at most twice.
pub proof fn law_protocol_errors_end_the_turn(
    r: TurnAction,
    results: Seq<ContentBlock>,
    count: usize,
    reason: Seq<char>,
)
    requires
        protocol_action_is(r, results, count, reason),
    ensures
        r is AskAgain <==> count < MAX_UI_PROTOCOL_RETRIES,
        count >= MAX_UI_PROTOCOL_RETRIES ==> r is ReplyAfter,
{
}

proof fn lemma_plain_pattern_folds_to_itself(p: Seq<char>)
    requires
        forall|i: int| 0 <= i < p.len() ==> ('a' <= #[trigger] p[i] <= 'z' || p[i] == ' ' || p[i] == '\t'),
    ensures
        case_fold(p) == p,
{
    assert forall|i: int| 0 <= i < p.len() implies (#[trigger] p[i] as u32) < 128 by {
        let c = p[i];
        assert(('a' <= c <= 'z' || c == ' ' || c == '\t') ==> (c as u32) < 128);
    }
    assert(ascii_lower(p) =~= p);
}

proof fn lemma_bare_word_matches(lt: Seq<char>, word: Seq<char>, pats: Seq<Seq<char>>, i: int, j: int)
    requires
        bare_command(lt, word),
        lt != word,
        0 <= i < pats.len(),
        0 <= j < pats.len(),
        pats[i] == word + seq![' '],
        pats[j] == word + seq!['\t'],
        case_fold(pats[i]) == pats[i],
        case_fold(pats[j]) == pats[j],
    ensures
        matches_any(lt, pats),
{
    if starts_with(lt, word + seq![' ']) {
        assert(occurs_at(lt, case_fold(pats[i]), 0));
    } else {
        assert(occurs_at(lt, case_fold(pats[j]), 0));
    }
}

/// Wrapping a dangerous ASCII command in more text never makes it look safe,
/// unless the command was the bare word `rm`, `del` or `rd` alone, which is
/// matched only as the whole command.
pub proof fn law_wrapped_dangerous_command_stays_flagged(s: Seq<char>, t: Seq<char>, u: Seq<char>, os: TargetOs)
    requires
        ascii_text(s + t + u),
        spec_is_dangerous(t, os),
        ascii_lower(t) != "rm"@,
        ascii_lower(t) != "del"@,
        ascii_lower(t) != "rd"@,
    ensures
        spec_is_dangerous(s + t + u, os),
{
    reveal_strlit("rm");
    reveal_strlit("del");
    reveal_strlit("rd");
    reveal_strlit("rm ");
    reveal_strlit("rm\t");
    reveal_strlit("del ");
    reveal_strlit("del\t");
    reveal_strlit("rd ");
    reveal_strlit("rd\t");
    let w = s + t + u;
    assert forall|i: int| 0 <= i < t.len() implies (#[trigger] t[i] as u32) < 128 by {
        assert(t[i] == w[s.len() + i]);
    }
    assert forall|i: int| 0 <= i < s.len() implies (#[trigger] s[i] as u32) < 128 by {
        assert(s[i] == w[i]);
    }
    assert forall|i: int| 0 <= i < u.len() implies (#[trigger] u[i] as u32) < 128 by {
        assert(u[i] == w[s.len() + t.len() + i]);
    }
    let lt = ascii_lower(t);
    assert(case_fold(t) == lt);
    assert(case_fold(w) == ascii_lower(w));
    assert(ascii_lower(w) =~= ascii_lower(s) + lt + ascii_lower(u));
    let cp = common_patterns();
    if bare_command(lt, "rm"@) {
        assert(cp[0] == "rm"@ + seq![' ']);
        assert(cp[1] == "rm"@ + seq!['\t']);
        lemma_plain_pattern_folds_to_itself(cp[0]);
        lemma_plain_pattern_folds_to_itself(cp[1]);
        lemma_bare_word_matches(lt, "rm"@, cp, 0, 1);
    } else if os == TargetOs::Windows && bare_command(lt, "del"@) {
        let pp = platform_patterns(os);
        assert(pp[0] == "del"@ + seq![' ']);
        assert(pp[1] == "del"@ + seq!['\t']);
        lemma_plain_pattern_folds_to_itself(pp[0]);
        lemma_plain_pattern_folds_to_itself(pp[1]);
        lemma_bare_word_matches(lt, "del"@, pp, 0, 1);
    } else if os == TargetOs::Windows && bare_command(lt, "rd"@) {
        let pp = platform_patterns(os);
        assert(pp[2] == "rd"@ + seq![' ']);
        assert(pp[3] == "rd"@ + seq!['\t']);
        lemma_plain_pattern_folds_to_itself(pp[2]);
        lemma_plain_pattern_folds_to_itself(pp[3]);
        lemma_bare_word_matches(lt, "rd"@, pp, 2, 3);
    }
    law_flagged_pattern_survives_wrapping(ascii_lower(s), lt, ascii_lower(u), os);
}

/// A `spa` payload (its kind in any ASCII letter case) that has a situation
/// and an action label is never refused for its action type: the action waits
/// for the user exactly when its `type`, upper-cased, is `WAIT_FOR_USER`; an
/// ASCII type that upper-cases otherwise, or no type, runs a step.
pub proof fn law_spa_action_type(r: Option<AssistantUiPayload>, v: Json, kind: Seq<char>)
    requires
        ascii_text(kind),
        ascii_lower(kind) == "spa"@,
        ui_value_is(r, v, case_fold(kind)),
        str_field(v, "situation"@) is Some,
        spec_get(v, "action"@) is Some,
        str_field(spec_get(v, "action"@).unwrap(), "label"@) is Some,
    ensures
        r is Some,
        r->Some_0 is Spa,
        ({
            let ui = r->Some_0->Spa_0;
            let action = spec_get(v, "action"@).unwrap();
            &&& Some(ui.action.label@) == str_field(action, "label"@)
            &&& str_field(action, "type"@) is None ==> ui.action.action_type
                == AssistantActionType::RunStep
            &&& forall|t: Seq<char>|
                str_field(action, "type"@) == Some(t) && ascii_text(t) ==> ((ui.action.action_type
                    == AssistantActionType::WaitForUser) <==> ascii_upper(t) == "WAIT_FOR_USER"@)
        }),
{
    reveal_strlit("spa");
    reveal_strlit("done");
    reveal_strlit("info");
    assert(case_fold(kind) == "spa"@);
    assert("spa"@ != "done"@);
    assert("spa"@ != "info"@);
    let action = spec_get(v, "action"@).unwrap();
    assert(r->Some_0->Spa_0.action.action_type == action_type_of(action));
}


/// The system prompt opens with the fixed introduction, which ends with the
/// heading of the system description, and the part after the description
/// and the knowledge table of contents opens with the working rules.
pub proof fn law_prompt_layout()
    ensures
        starts_with(PROMPT_HEAD@, "You are Noah"@),
        ends_with(PROMPT_HEAD@, "## Current System\n"@),
        starts_with(prompt_tail(), "\n\n## How You Work"@),
{
    reveal_strlit("You are Noah");
    reveal_strlit("You are Noah, a friendly and capable computer helper running on the user's computer. You diagnose and fix issues. You're like that one friend who's good with computers — patient, reassuring, and you just handle things.

## Current System
");
    reveal_strlit("## Current System\n");
    reveal_strlit("\n\n## How You Work");
    let h = PROMPT_HEAD@;
    assert(h.subrange(0, 12) =~= "You are Noah"@);
    assert(h.subrange(h.len() - 18, h.len() as int) =~= "## Current System\n"@);
    let w = HOW_YOU_WORK_HEADING@;
    assert(prompt_tail().subrange(0, w.len() as int) =~= w);
}

/// The failure is worth another attempt: no answer came, or the status is
/// retryable and the body does not report a context limit.
pub open spec fn worth_retrying(post: FailedPost) -> bool {
    match post {
        FailedPost::Unreachable { .. } => true,
        FailedPost::Answer { status, body } => is_retryable(status) && !spec_is_context_limit_error(
            status,
            body@,
        ),
    }
}

/// The answer reports a context limit.
pub open spec fn context_limited(post: FailedPost) -> bool {
    post matches FailedPost::Answer { status, body } && spec_is_context_limit_error(status, body@)
}

/// The request loop sends again only before its last attempt and only after
/// a failure worth another attempt, so counting attempts up from 0 it makes
/// at most `MAX_RETRIES + 1` of them; an answer that reports a context limit
/// ends it at once with `Context limit exceeded: ` and the body.
pub proof fn law_request_retries_are_bounded(post: FailedPost, attempt: u32)
    requires
        attempt <= MAX_RETRIES,
    ensures
        spec_post_step(post, attempt).0 ==> attempt < MAX_RETRIES && worth_retrying(post),
        context_limited(post) ==> !spec_post_step(post, attempt).0 && spec_post_step(post, attempt).1
            == "Context limit exceeded: "@ + post->body@,
{
}

/// When no triage is needed the evaluation does nothing, whatever a triage
/// would have said: the model is consulted only after the earlier checks pass.
pub proof fn law_triage_only_when_needed(
    has_auth: bool,
    running: bool,
    actionable: nat,
    playbooks: nat,
    should_heal: bool,
    slug: Seq<char>,
    auto_heal_on: bool,
)
    requires
        !spec_triage_needed(has_auth, running, actionable, playbooks),
    ensures
        spec_heal_step(has_auth, running, actionable, playbooks, should_heal, slug, auto_heal_on)
            == HealStep::Skip,
{
}

proof fn lemma_listed_pattern_flags(
    s: Seq<char>,
    p: Seq<char>,
    u: Seq<char>,
    os: TargetOs,
    pats: Seq<Seq<char>>,
    k: int,
)
    requires
        pats == common_patterns() || pats == platform_patterns(os),
        0 <= k < pats.len(),
        pats[k] == p,
        ascii_text(s),
        ascii_text(p),
        ascii_text(u),
    ensures
        spec_is_dangerous(s + p + u, os),
{
    let w = s + p + u;
    assert forall|j: int| 0 <= j < w.len() implies (#[trigger] w[j] as u32) < 128 by {
        if j < s.len() {
            assert(w[j] == s[j]);
        } else if j < s.len() + p.len() {
            assert(w[j] == p[j - s.len()]);
        } else {
            assert(w[j] == u[j - s.len() - p.len()]);
        }
    }
    let lw = ascii_lower(w);
    assert(case_fold(w) == lw);
    assert(case_fold(p) == ascii_lower(p));
    assert(lw =~= ascii_lower(s) + ascii_lower(p) + ascii_lower(u));
    assert(lw.subrange(s.len() as int, (s.len() + p.len()) as int) =~= ascii_lower(p));
    assert(occurs_at(lw, case_fold(pats[k]), s.len() as int));
    assert(matches_any(lw, pats));
}

/// Whatever the platform, an ASCII command that holds one of the common
/// dangerous patterns (in any letter case), wherever it stands, is dangerous:
/// deleting (`rm `, `rmdir `), privilege escalation (`sudo `), raw disk
/// writes and formatting (`dd `, `mkfs`), power (`shutdown`, `reboot`,
/// `halt`, `poweroff`), device writes (`> /dev/`), broad permission changes
/// (`chmod -R`, `chmod 777`, `chown -R`), piped remote execution (`| sh`,
/// `| bash`), mass process killing (`killall `, `pkill `) and truncation.
pub proof fn law_common_patterns_are_dangerous(s: Seq<char>, u: Seq<char>, os: TargetOs)
    requires
        ascii_text(s),
        ascii_text(u),
    ensures
        spec_is_dangerous(s + "rm "@ + u, os),
        spec_is_dangerous(s + "rm\t"@ + u, os),
        spec_is_dangerous(s + "rmdir "@ + u, os),
        spec_is_dangerous(s + "sudo "@ + u, os),
        spec_is_dangerous(s + "dd "@ + u, os),
        spec_is_dangerous(s + "mkfs"@ + u, os),
        spec_is_dangerous(s + "shutdown"@ + u, os),
        spec_is_dangerous(s + "reboot"@ + u, os),
        spec_is_dangerous(s + "halt"@ + u, os),
        spec_is_dangerous(s + "poweroff"@ + u, os),
        spec_is_dangerous(s + "> /dev/"@ + u, os),
        spec_is_dangerous(s + "chmod -R"@ + u, os),
        spec_is_dangerous(s + "chmod 777"@ + u, os),
        spec_is_dangerous(s + "chown -R"@ + u, os),
        spec_is_dangerous(s + "| sh"@ + u, os),
        spec_is_dangerous(s + "| bash"@ + u, os),
        spec_is_dangerous(s + "killall "@ + u, os),
        spec_is_dangerous(s + "pkill "@ + u, os),
        spec_is_dangerous(s + "truncate "@ + u, os),
{
    reveal_strlit("rm ");
    assert forall|j: int| 0 <= j < "rm "@.len() implies (#[trigger] "rm "@[j] as u32) < 128 by {}
    lemma_listed_pattern_flags(s, "rm "@, u, os, common_patterns(), 0);
    reveal_strlit("rm\t");
    assert forall|j: int| 0 <= j < "rm\t"@.len() implies (#[trigger] "rm\t"@[j] as u32) < 128 by {}
    lemma_listed_pattern_flags(s, "rm\t"@, u, os, common_patterns(), 1);
    reveal_strlit("rmdir ");
    assert forall|j: int| 0 <= j < "rmdir "@.len() implies (#[trigger] "rmdir "@[j] as u32) < 128 by {}
    lemma_listed_pattern_flags(s, "rmdir "@, u, os, common_patterns(), 2);
    reveal_strlit("sudo ");
    assert forall|j: int| 0 <= j < "sudo "@.len() implies (#[trigger] "sudo "@[j] as u32) < 128 by {}
    lemma_listed_pattern_flags(s, "sudo "@, u, os, common_patterns(), 3);
    reveal_strlit("dd ");
    assert forall|j: int| 0 <= j < "dd "@.len() implies (#[trigger] "dd "@[j] as u32) < 128 by {}
    lemma_listed_pattern_flags(s, "dd "@, u, os, common_patterns(), 4);
    reveal_strlit("mkfs");
    assert forall|j: int| 0 <= j < "mkfs"@.len() implies (#[trigger] "mkfs"@[j] as u32) < 128 by {}
    lemma_listed_pattern_flags(s, "mkfs"@, u, os, common_patterns(), 5);
    reveal_strlit("shutdown");
    assert forall|j: int| 0 <= j < "shutdown"@.len() implies (#[trigger] "shutdown"@[j] as u32) < 128 by {}
    lemma_listed_pattern_flags(s, "shutdown"@, u, os, common_patterns(), 6);
    reveal_strlit("reboot");
    assert forall|j: int| 0 <= j < "reboot"@.len() implies (#[trigger] "reboot"@[j] as u32) < 128 by {}
    lemma_listed_pattern_flags(s, "reboot"@, u, os, common_patterns(), 7);
    reveal_strlit("halt");
    assert forall|j: int| 0 <= j < "halt"@.len() implies (#[trigger] "halt"@[j] as u32) < 128 by {}
    lemma_listed_pattern_flags(s, "halt"@, u, os, common_patterns(), 8);
    reveal_strlit("poweroff");
    assert forall|j: int| 0 <= j < "poweroff"@.len() implies (#[trigger] "poweroff"@[j] as u32) < 128 by {}
    lemma_listed_pattern_flags(s, "poweroff"@, u, os, common_patterns(), 9);
    reveal_strlit("> /dev/");
    assert forall|j: int| 0 <= j < "> /dev/"@.len() implies (#[trigger] "> /dev/"@[j] as u32) < 128 by {}
    lemma_listed_pattern_flags(s, "> /dev/"@, u, os, common_patterns(), 10);
    reveal_strlit("chmod -R");
    assert forall|j: int| 0 <= j < "chmod -R"@.len() implies (#[trigger] "chmod -R"@[j] as u32) < 128 by {}
    lemma_listed_pattern_flags(s, "chmod -R"@, u, os, common_patterns(), 11);
    reveal_strlit("chmod 777");
    assert forall|j: int| 0 <= j < "chmod 777"@.len() implies (#[trigger] "chmod 777"@[j] as u32) < 128 by {}
    lemma_listed_pattern_flags(s, "chmod 777"@, u, os, common_patterns(), 12);
    reveal_strlit("chown -R");
    assert forall|j: int| 0 <= j < "chown -R"@.len() implies (#[trigger] "chown -R"@[j] as u32) < 128 by {}
    lemma_listed_pattern_flags(s, "chown -R"@, u, os, common_patterns(), 13);
    reveal_strlit("| sh");
    assert forall|j: int| 0 <= j < "| sh"@.len() implies (#[trigger] "| sh"@[j] as u32) < 128 by {}
    lemma_listed_pattern_flags(s, "| sh"@, u, os, common_patterns(), 14);
    reveal_strlit("| bash");
    assert forall|j: int| 0 <= j < "| bash"@.len() implies (#[trigger] "| bash"@[j] as u32) < 128 by {}
    lemma_listed_pattern_flags(s, "| bash"@, u, os, common_patterns(), 15);
    reveal_strlit("killall ");
    assert forall|j: int| 0 <= j < "killall "@.len() implies (#[trigger] "killall "@[j] as u32) < 128 by {}
    lemma_listed_pattern_flags(s, "killall "@, u, os, common_patterns(), 16);
    reveal_strlit("pkill ");
    assert forall|j: int| 0 <= j < "pkill "@.len() implies (#[trigger] "pkill "@[j] as u32) < 128 by {}
    lemma_listed_pattern_flags(s, "pkill "@, u, os, common_patterns(), 17);
    reveal_strlit("truncate ");
    assert forall|j: int| 0 <= j < "truncate "@.len() implies (#[trigger] "truncate "@[j] as u32) < 128 by {}
    lemma_listed_pattern_flags(s, "truncate "@, u, os, common_patterns(), 18);
}

/// On macOS these are dangerous as well: erasing or partitioning a disk,
/// piping into `zsh`, unloading a launch service.
pub proof fn law_macos_patterns_are_dangerous(s: Seq<char>, u: Seq<char>)
    requires
        ascii_text(s),
        ascii_text(u),
    ensures
        spec_is_dangerous(s + "diskutil erase"@ + u, TargetOs::MacOs),
        spec_is_dangerous(s + "diskutil partitionDisk"@ + u, TargetOs::MacOs),
        spec_is_dangerous(s + "| zsh"@ + u, TargetOs::MacOs),
        spec_is_dangerous(s + "launchctl unload"@ + u, TargetOs::MacOs),
{
    reveal_strlit("diskutil erase");
    assert forall|j: int| 0 <= j < "diskutil erase"@.len() implies (#[trigger] "diskutil erase"@[j] as u32) < 128 by {}
    lemma_listed_pattern_flags(s, "diskutil erase"@, u, TargetOs::MacOs, platform_patterns(TargetOs::MacOs), 0);
    reveal_strlit("diskutil partitionDisk");
    assert forall|j: int| 0 <= j < "diskutil partitionDisk"@.len() implies (#[trigger] "diskutil partitionDisk"@[j] as u32) < 128 by {}
    lemma_listed_pattern_flags(s, "diskutil partitionDisk"@, u, TargetOs::MacOs, platform_patterns(TargetOs::MacOs), 1);
    reveal_strlit("| zsh");
    assert forall|j: int| 0 <= j < "| zsh"@.len() implies (#[trigger] "| zsh"@[j] as u32) < 128 by {}
    lemma_listed_pattern_flags(s, "| zsh"@, u, TargetOs::MacOs, platform_patterns(TargetOs::MacOs), 2);
    reveal_strlit("launchctl unload");
    assert forall|j: int| 0 <= j < "launchctl unload"@.len() implies (#[trigger] "launchctl unload"@[j] as u32) < 128 by {}
    lemma_listed_pattern_flags(s, "launchctl unload"@, u, TargetOs::MacOs, platform_patterns(TargetOs::MacOs), 3);
}

/// On Windows these are dangerous as well: deleting (`del`, `rd`), running
/// as another user, formatting and partitioning, boot configuration, registry
/// deletion, permission changes, piping into a shell, removing items, power
/// and mass process killing.
pub proof fn law_windows_patterns_are_dangerous(s: Seq<char>, u: Seq<char>)
    requires
        ascii_text(s),
        ascii_text(u),
    ensures
        spec_is_dangerous(s + "del "@ + u, TargetOs::Windows),
        spec_is_dangerous(s + "del\t"@ + u, TargetOs::Windows),
        spec_is_dangerous(s + "rd "@ + u, TargetOs::Windows),
        spec_is_dangerous(s + "rd\t"@ + u, TargetOs::Windows),
        spec_is_dangerous(s + "runas "@ + u, TargetOs::Windows),
        spec_is_dangerous(s + "format "@ + u, TargetOs::Windows),
        spec_is_dangerous(s + "diskpart"@ + u, TargetOs::Windows),
        spec_is_dangerous(s + "bcdedit"@ + u, TargetOs::Windows),
        spec_is_dangerous(s + "reg delete"@ + u, TargetOs::Windows),
        spec_is_dangerous(s + "icacls"@ + u, TargetOs::Windows),
        spec_is_dangerous(s + "| cmd"@ + u, TargetOs::Windows),
        spec_is_dangerous(s + "| powershell"@ + u, TargetOs::Windows),
        spec_is_dangerous(s + "remove-item"@ + u, TargetOs::Windows),
        spec_is_dangerous(s + "stop-computer"@ + u, TargetOs::Windows),
        spec_is_dangerous(s + "restart-computer"@ + u, TargetOs::Windows),
        spec_is_dangerous(s + "taskkill /im *"@ + u, TargetOs::Windows),
{
    reveal_strlit("del ");
    assert forall|j: int| 0 <= j < "del "@.len() implies (#[trigger] "del "@[j] as u32) < 128 by {}
    lemma_listed_pattern_flags(s, "del "@, u, TargetOs::Windows, platform_patterns(TargetOs::Windows), 0);
    reveal_strlit("del\t");
    assert forall|j: int| 0 <= j < "del\t"@.len() implies (#[trigger] "del\t"@[j] as u32) < 128 by {}
    lemma_listed_pattern_flags(s, "del\t"@, u, TargetOs::Windows, platform_patterns(TargetOs::Windows), 1);
    reveal_strlit("rd ");
    assert forall|j: int| 0 <= j < "rd "@.len() implies (#[trigger] "rd "@[j] as u32) < 128 by {}
    lemma_listed_pattern_flags(s, "rd "@, u, TargetOs::Windows, platform_patterns(TargetOs::Windows), 2);
    reveal_strlit("rd\t");
    assert forall|j: int| 0 <= j < "rd\t"@.len() implies (#[trigger] "rd\t"@[j] as u32) < 128 by {}
    lemma_listed_pattern_flags(s, "rd\t"@, u, TargetOs::Windows, platform_patterns(TargetOs::Windows), 3);
    reveal_strlit("runas ");
    assert forall|j: int| 0 <= j < "runas "@.len() implies (#[trigger] "runas "@[j] as u32) < 128 by {}
    lemma_listed_pattern_flags(s, "runas "@, u, TargetOs::Windows, platform_patterns(TargetOs::Windows), 4);
    reveal_strlit("format ");
    assert forall|j: int| 0 <= j < "format "@.len() implies (#[trigger] "format "@[j] as u32) < 128 by {}
    lemma_listed_pattern_flags(s, "format "@, u, TargetOs::Windows, platform_patterns(TargetOs::Windows), 5);
    reveal_strlit("diskpart");
    assert forall|j: int| 0 <= j < "diskpart"@.len() implies (#[trigger] "diskpart"@[j] as u32) < 128 by {}
    lemma_listed_pattern_flags(s, "diskpart"@, u, TargetOs::Windows, platform_patterns(TargetOs::Windows), 6);
    reveal_strlit("bcdedit");
    assert forall|j: int| 0 <= j < "bcdedit"@.len() implies (#[trigger] "bcdedit"@[j] as u32) < 128 by {}
    lemma_listed_pattern_flags(s, "bcdedit"@, u, TargetOs::Windows, platform_patterns(TargetOs::Windows), 7);
    reveal_strlit("reg delete");
    assert forall|j: int| 0 <= j < "reg delete"@.len() implies (#[trigger] "reg delete"@[j] as u32) < 128 by {}
    lemma_listed_pattern_flags(s, "reg delete"@, u, TargetOs::Windows, platform_patterns(TargetOs::Windows), 8);
    reveal_strlit("icacls");
    assert forall|j: int| 0 <= j < "icacls"@.len() implies (#[trigger] "icacls"@[j] as u32) < 128 by {}
    lemma_listed_pattern_flags(s, "icacls"@, u, TargetOs::Windows, platform_patterns(TargetOs::Windows), 9);
    reveal_strlit("| cmd");
    assert forall|j: int| 0 <= j < "| cmd"@.len() implies (#[trigger] "| cmd"@[j] as u32) < 128 by {}
    lemma_listed_pattern_flags(s, "| cmd"@, u, TargetOs::Windows, platform_patterns(TargetOs::Windows), 10);
    reveal_strlit("| powershell");
    assert forall|j: int| 0 <= j < "| powershell"@.len() implies (#[trigger] "| powershell"@[j] as u32) < 128 by {}
    lemma_listed_pattern_flags(s, "| powershell"@, u, TargetOs::Windows, platform_patterns(TargetOs::Windows), 11);
    reveal_strlit("remove-item");
    assert forall|j: int| 0 <= j < "remove-item"@.len() implies (#[trigger] "remove-item"@[j] as u32) < 128 by {}
    lemma_listed_pattern_flags(s, "remove-item"@, u, TargetOs::Windows, platform_patterns(TargetOs::Windows), 12);
    reveal_strlit("stop-computer");
    assert forall|j: int| 0 <= j < "stop-computer"@.len() implies (#[trigger] "stop-computer"@[j] as u32) < 128 by {}
    lemma_listed_pattern_flags(s, "stop-computer"@, u, TargetOs::Windows, platform_patterns(TargetOs::Windows), 13);
    reveal_strlit("restart-computer");
    assert forall|j: int| 0 <= j < "restart-computer"@.len() implies (#[trigger] "restart-computer"@[j] as u32) < 128 by {}
    lemma_listed_pattern_flags(s, "restart-computer"@, u, TargetOs::Windows, platform_patterns(TargetOs::Windows), 14);
    reveal_strlit("taskkill /im *");
    assert forall|j: int| 0 <= j < "taskkill /im *"@.len() implies (#[trigger] "taskkill /im *"@[j] as u32) < 128 by {}
    lemma_listed_pattern_flags(s, "taskkill /im *"@, u, TargetOs::Windows, platform_patterns(TargetOs::Windows), 15);
}

/// On Linux these are dangerous as well: disabling or masking a service.
pub proof fn law_linux_patterns_are_dangerous(s: Seq<char>, u: Seq<char>)
    requires
        ascii_text(s),
        ascii_text(u),
    ensures
        spec_is_dangerous(s + "systemctl disable"@ + u, TargetOs::Linux),
        spec_is_dangerous(s + "systemctl mask"@ + u, TargetOs::Linux),
{
    reveal_strlit("systemctl disable");
    assert forall|j: int| 0 <= j < "systemctl disable"@.len() implies (#[trigger] "systemctl disable"@[j] as u32) < 128 by {}
    lemma_listed_pattern_flags(s, "systemctl disable"@, u, TargetOs::Linux, platform_patterns(TargetOs::Linux), 0);
    reveal_strlit("systemctl mask");
    assert forall|j: int| 0 <= j < "systemctl mask"@.len() implies (#[trigger] "systemctl mask"@[j] as u32) < 128 by {}
    lemma_listed_pattern_flags(s, "systemctl mask"@, u, TargetOs::Linux, platform_patterns(TargetOs::Linux), 1);
}

/// The bare word `rm` (in any letter case) is dangerous everywhere, and the
/// bare words `del` and `rd` are dangerous on Windows.
pub proof fn law_bare_deletion_words_are_dangerous(c: Seq<char>, os: TargetOs)
    requires
        ascii_text(c),
    ensures
        ascii_lower(c) == "rm"@ ==> spec_is_dangerous(c, os),
        ascii_lower(c) == "del"@ ==> spec_is_dangerous(c, TargetOs::Windows),
        ascii_lower(c) == "rd"@ ==> spec_is_dangerous(c, TargetOs::Windows),
{
    assert(case_fold(c) == ascii_lower(c));
}

/// The UI tools are exactly `ui_spa`, `ui_user_question`, `ui_info` and
/// `ui_done`: a response whose only tool call (beside any text) names one of
/// them ends the turn with that call; a lone call of any other tool runs.
pub proof fn law_ui_tool_names(text: ResponseBlock, call: ResponseBlock)
    requires
        text is Text,
        call is ToolUse,
    ensures
        ({
            let n = call->ToolUse_name@;
            let ui = n == "ui_spa"@ || n == "ui_user_question"@ || n == "ui_info"@ || n == "ui_done"@;
            &&& ui ==> spec_plan(seq![call]) == TurnPlan::SingleUi(0)
            &&& ui ==> spec_plan(seq![text, call]) == TurnPlan::SingleUi(0)
            &&& !ui ==> spec_plan(seq![call]) == TurnPlan::RunTools
            &&& ui ==> spec_plan(seq![call, call]) == TurnPlan::UiPolicyViolation
        }),
{
    let s1 = seq![call];
    let s2 = seq![text, call];
    let s3 = seq![call, call];
    assert(s1.drop_last() =~= Seq::<ResponseBlock>::empty());
    assert(s2.drop_last() =~= seq![text]);
    assert(seq![text].drop_last() =~= Seq::<ResponseBlock>::empty());
    assert(s3.drop_last() =~= s1);
    reveal_with_fuel(crate::turn::count_calls, 3);
}

/// The transition `t` leaves `state` on `event`: it starts there and lists the event.
pub open spec fn leaves_on(t: FsmTransitionSpec, state: Seq<char>, event: Seq<char>) -> bool {
    t.from@ == state && views(t.triggers@).contains(event)
}

proof fn lemma_first_firing_is_first(ts: Seq<FsmTransitionSpec>, state: Seq<char>, event: Seq<char>)
    ensures
        first_firing(ts, state, event) is None ==> forall|i: int|
            0 <= i < ts.len() ==> !fires(#[trigger] ts[i], state, event),
        first_firing(ts, state, event) matches Some(t) ==> exists|i: int|
            0 <= i < ts.len() && ts[i] == t && fires(t, state, event) && forall|j: int|
                0 <= j < i ==> !fires(#[trigger] ts[j], state, event),
    decreases ts.len(),
{
    if ts.len() > 0 {
        lemma_first_firing_is_first(ts.drop_first(), state, event);
        if fires(ts[0], state, event) {
            assert(ts[0] == first_firing(ts, state, event).unwrap());
        } else {
            match first_firing(ts, state, event) {
                Some(t) => {
                    let i = choose|i: int|
                        0 <= i < ts.drop_first().len() && ts.drop_first()[i] == t && fires(t, state, event)
                            && forall|j: int| 0 <= j < i ==> !fires(#[trigger] ts.drop_first()[j], state, event);
                    assert(ts[i + 1] == t);
                    assert forall|j: int| 0 <= j < i + 1 implies !fires(#[trigger] ts[j], state, event) by {
                        if j > 0 {
                            assert(ts[j] == ts.drop_first()[j - 1]);
                        }
                    }
                },
                None => {
                    assert forall|i: int| 0 <= i < ts.len() implies !fires(#[trigger] ts[i], state, event) by {
                        if i > 0 {
                            assert(ts[i] == ts.drop_first()[i - 1]);
                        }
                    }
                },
            }
        }
    }
}

/// A playbook's state machine moves only along its own transitions: an event
/// that no transition out of the current state lists keeps the state; else
/// the state becomes the target of the first transition (in the listed order)
/// that starts at the current state and lists the event.
pub proof fn law_step_follows_transitions_out_of_the_state(spec: FsmSpec, state: Seq<char>, event: Seq<char>)
    ensures
        (forall|i: int|
            0 <= i < spec.transitions@.len() ==> !leaves_on(#[trigger] spec.transitions@[i], state, event))
            ==> step(spec, state, event) == state,
        (exists|i: int|
            0 <= i < spec.transitions@.len() && leaves_on(#[trigger] spec.transitions@[i], state, event))
            ==> exists|i: int|
            0 <= i < spec.transitions@.len() && leaves_on(spec.transitions@[i], state, event)
                && step(spec, state, event) == spec.transitions@[i].to@ && forall|j: int|
                0 <= j < i ==> !leaves_on(#[trigger] spec.transitions@[j], state, event),
        step(spec, state, event) != state ==> exists|i: int|
            0 <= i < spec.transitions@.len() && leaves_on(#[trigger] spec.transitions@[i], state, event)
                && step(spec, state, event) == spec.transitions@[i].to@,
{
    let ts = spec.transitions@;
    lemma_first_firing_is_first(ts, state, event);
    assert forall|i: int| 0 <= i < ts.len() implies (fires(#[trigger] ts[i], state, event) == leaves_on(
        ts[i],
        state,
        event,
    )) by {}
}

proof fn lemma_second_char_not_forbidden(w: Seq<char>)
    requires
        w.len() > 1,
        w[1] != 'p',
        w[1] != 'd',
        w[1] != 'b',
    ensures
        !prefixed_by_any(w, linux_forbidden_prefixes()),
{
    reveal_strlit("/proc/kcore");
    reveal_strlit("/proc/kmem");
    reveal_strlit("/dev/");
    reveal_strlit("/boot/");
    let fs = linux_forbidden_prefixes();
    assert forall|i: int| 0 <= i < fs.len() implies !starts_with(w, #[trigger] fs[i]) by {
        if starts_with(w, fs[i]) {
            assert(w.subrange(0, fs[i].len() as int)[1] == w[1]);
        }
    }
}

proof fn lemma_allowed_prefix(p: Seq<char>, rest: Seq<char>, k: int)
    requires
        0 <= k < linux_allowed_prefixes().len(),
        linux_allowed_prefixes()[k] == p,
        !prefixed_by_any(p + rest, linux_forbidden_prefixes()),
    ensures
        spec_linux_path_allowed(p + rest),
{
    assert((p + rest).subrange(0, p.len() as int) =~= p);
    assert(starts_with(p + rest, linux_allowed_prefixes()[k]));
}

/// Every path under the home directories, the temporary directories, the
/// logs, `/etc/`, `/usr/local/`, `/opt/` and `/sys/class/` may be read, and
/// so may every path under `/proc/` but the kernel's memory (`/proc/kcore`,
/// `/proc/kmem`).
pub proof fn law_allowed_linux_paths_readable(rest: Seq<char>)
    ensures
        spec_linux_path_allowed("/home/"@ + rest),
        spec_linux_path_allowed("/tmp/"@ + rest),
        spec_linux_path_allowed("/var/log/"@ + rest),
        spec_linux_path_allowed("/var/tmp/"@ + rest),
        spec_linux_path_allowed("/etc/"@ + rest),
        spec_linux_path_allowed("/usr/local/"@ + rest),
        spec_linux_path_allowed("/opt/"@ + rest),
        spec_linux_path_allowed("/sys/class/"@ + rest),
        !starts_with(rest, "kcore"@) && !starts_with(rest, "kmem"@) ==> spec_linux_path_allowed(
            "/proc/"@ + rest,
        ),
{
    reveal_strlit("/home/");
    assert(("/home/"@ + rest)[1] == "/home/"@[1]);
    lemma_second_char_not_forbidden("/home/"@ + rest);
    lemma_allowed_prefix("/home/"@, rest, 0);
    reveal_strlit("/tmp/");
    assert(("/tmp/"@ + rest)[1] == "/tmp/"@[1]);
    lemma_second_char_not_forbidden("/tmp/"@ + rest);
    lemma_allowed_prefix("/tmp/"@, rest, 1);
    reveal_strlit("/var/log/");
    assert(("/var/log/"@ + rest)[1] == "/var/log/"@[1]);
    lemma_second_char_not_forbidden("/var/log/"@ + rest);
    lemma_allowed_prefix("/var/log/"@, rest, 2);
    reveal_strlit("/var/tmp/");
    assert(("/var/tmp/"@ + rest)[1] == "/var/tmp/"@[1]);
    lemma_second_char_not_forbidden("/var/tmp/"@ + rest);
    lemma_allowed_prefix("/var/tmp/"@, rest, 3);
    reveal_strlit("/etc/");
    assert(("/etc/"@ + rest)[1] == "/etc/"@[1]);
    lemma_second_char_not_forbidden("/etc/"@ + rest);
    lemma_allowed_prefix("/etc/"@, rest, 4);
    reveal_strlit("/usr/local/");
    assert(("/usr/local/"@ + rest)[1] == "/usr/local/"@[1]);
    lemma_second_char_not_forbidden("/usr/local/"@ + rest);
    lemma_allowed_prefix("/usr/local/"@, rest, 5);
    reveal_strlit("/opt/");
    assert(("/opt/"@ + rest)[1] == "/opt/"@[1]);
    lemma_second_char_not_forbidden("/opt/"@ + rest);
    lemma_allowed_prefix("/opt/"@, rest, 6);
    reveal_strlit("/sys/class/");
    assert(("/sys/class/"@ + rest)[1] == "/sys/class/"@[1]);
    lemma_second_char_not_forbidden("/sys/class/"@ + rest);
    lemma_allowed_prefix("/sys/class/"@, rest, 8);
    reveal_strlit("/proc/");
    reveal_strlit("kcore");
    reveal_strlit("kmem");
    reveal_strlit("/proc/kcore");
    reveal_strlit("/proc/kmem");
    reveal_strlit("/dev/");
    reveal_strlit("/boot/");
    if !starts_with(rest, "kcore"@) && !starts_with(rest, "kmem"@) {
        let w = "/proc/"@ + rest;
        let fs = linux_forbidden_prefixes();
        assert forall|i: int| 0 <= i < fs.len() implies !starts_with(w, #[trigger] fs[i]) by {
            if starts_with(w, fs[i]) {
                let f = fs[i];
                assert(w.subrange(0, f.len() as int)[1] == w[1]);
                if i == 0 {
                    assert(rest.subrange(0, 5) =~= w.subrange(6, 11));
                    assert(w.subrange(6, 11) =~= f.subrange(6, 11));
                    assert(f.subrange(6, 11) =~= "kcore"@);
                } else if i == 1 {
                    assert(rest.subrange(0, 4) =~= w.subrange(6, 10));
                    assert(w.subrange(6, 10) =~= f.subrange(6, 10));
                    assert(f.subrange(6, 10) =~= "kmem"@);
                }
            }
        }
        lemma_allowed_prefix("/proc/"@, rest, 7);
    }
}

proof fn lemma_phrase_reports_limit(status: u16, s: Seq<char>, m: Seq<char>, u: Seq<char>, k: int)
    requires
        status == 400 || status == 413,
        0 <= k < context_limit_phrases().len(),
        ascii_lower(m) == context_limit_phrases()[k],
    ensures
        spec_is_context_limit_error(status, s + m + u),
{
    let w = s + m + u;
    let lw = ascii_lower(w);
    assert(lw =~= ascii_lower(s) + ascii_lower(m) + ascii_lower(u));
    assert(lw.subrange(s.len() as int, (s.len() + m.len()) as int) =~= ascii_lower(m));
    assert(occurs_at(lw, context_limit_phrases()[k], s.len() as int));
}

/// A 400 or 413 answer is a context-limit error when its body names the
/// context window, the context length, a prompt or input that is too long,
/// too many tokens, or the maximum context length, in any letter case and
/// wherever it stands; an answer with any other status never is.
pub proof fn law_context_limit_phrases(status: u16, s: Seq<char>, m: Seq<char>, u: Seq<char>)
    ensures
        (status == 400 || status == 413) && ascii_lower(m) == "context window"@ ==> spec_is_context_limit_error(
            status,
            s + m + u,
        ),
        (status == 400 || status == 413) && ascii_lower(m) == "context_length"@ ==> spec_is_context_limit_error(
            status,
            s + m + u,
        ),
        (status == 400 || status == 413) && ascii_lower(m) == "prompt is too long"@ ==> spec_is_context_limit_error(
            status,
            s + m + u,
        ),
        (status == 400 || status == 413) && ascii_lower(m) == "prompt too long"@ ==> spec_is_context_limit_error(
            status,
            s + m + u,
        ),
        (status == 400 || status == 413) && ascii_lower(m) == "too many tokens"@ ==> spec_is_context_limit_error(
            status,
            s + m + u,
        ),
        (status == 400 || status == 413) && ascii_lower(m) == "input is too long"@ ==> spec_is_context_limit_error(
            status,
            s + m + u,
        ),
        (status == 400 || status == 413) && ascii_lower(m) == "maximum context length"@ ==> spec_is_context_limit_error(
            status,
            s + m + u,
        ),
        !(status == 400 || status == 413) ==> !spec_is_context_limit_error(status, s + m + u),
{
    if status == 400 || status == 413 {
        if ascii_lower(m) == "context window"@ {
            lemma_phrase_reports_limit(status, s, m, u, 0);
        }
        if ascii_lower(m) == "context_length"@ {
            lemma_phrase_reports_limit(status, s, m, u, 1);
        }
        if ascii_lower(m) == "prompt is too long"@ {
            lemma_phrase_reports_limit(status, s, m, u, 2);
        }
        if ascii_lower(m) == "prompt too long"@ {
            lemma_phrase_reports_limit(status, s, m, u, 3);
        }
        if ascii_lower(m) == "too many tokens"@ {
            lemma_phrase_reports_limit(status, s, m, u, 4);
        }
        if ascii_lower(m) == "input is too long"@ {
            lemma_phrase_reports_limit(status, s, m, u, 5);
        }
        if ascii_lower(m) == "maximum context length"@ {
            lemma_phrase_reports_limit(status, s, m, u, 6);
        }
    }
}

proof fn lemma_prefix_mismatch(w: Seq<char>, a: Seq<char>, f: Seq<char>, j: int)
    requires
        starts_with(w, a),
        0 <= j < a.len(),
        j < f.len(),
        a[j] != f[j],
    ensures
        !starts_with(w, f),
{
    assert(w.subrange(0, a.len() as int)[j] == w[j]);
    if starts_with(w, f) {
        assert(w.subrange(0, f.len() as int)[j] == w[j]);
    }
}

proof fn lemma_ascii_upper_concat(p: Seq<char>, rest: Seq<char>)
    requires
        ascii_text(p),
        ascii_text(rest),
    ensures
        ascii_text(p + rest),
        case_fold_upper(p + rest) == ascii_upper(p) + ascii_upper(rest),
        case_fold_upper(p) == ascii_upper(p),
        starts_with(case_fold_upper(p + rest), ascii_upper(p)),
{
    let w = p + rest;
    assert forall|j: int| 0 <= j < w.len() implies (#[trigger] w[j] as u32) < 128 by {
        if j < p.len() {
            assert(w[j] == p[j]);
        } else {
            assert(w[j] == rest[j - p.len()]);
        }
    }
    assert(ascii_upper(w) =~= ascii_upper(p) + ascii_upper(rest));
    assert((ascii_upper(p) + ascii_upper(rest)).subrange(0, p.len() as int) =~= ascii_upper(p));
}

proof fn lemma_windows_forbidden_upper()
    ensures
        uppers(win_forbidden_prefixes())[0] == "C:\\WINDOWS\\SYSTEM32\\CONFIG\\"@,
        uppers(win_forbidden_prefixes())[1] == "C:\\WINDOWS\\SYSTEM32\\DRIVERS\\"@,
        uppers(win_forbidden_prefixes())[2] == "C:\\BOOT\\"@,
        uppers(win_forbidden_prefixes())[3] == "C:\\$"@,
{
    reveal_strlit("C:\\Windows\\System32\\config\\");
    reveal_strlit("C:\\WINDOWS\\SYSTEM32\\CONFIG\\");
    assert forall|j: int| 0 <= j < "C:\\Windows\\System32\\config\\"@.len() implies (#[trigger] "C:\\Windows\\System32\\config\\"@[j] as u32) < 128 by {}
    assert(ascii_upper("C:\\Windows\\System32\\config\\"@) =~= "C:\\WINDOWS\\SYSTEM32\\CONFIG\\"@);
    assert(uppers(win_forbidden_prefixes())[0] == case_fold_upper(win_forbidden_prefixes()[0]));
    reveal_strlit("C:\\Windows\\System32\\drivers\\");
    reveal_strlit("C:\\WINDOWS\\SYSTEM32\\DRIVERS\\");
    assert forall|j: int| 0 <= j < "C:\\Windows\\System32\\drivers\\"@.len() implies (#[trigger] "C:\\Windows\\System32\\drivers\\"@[j] as u32) < 128 by {}
    assert(ascii_upper("C:\\Windows\\System32\\drivers\\"@) =~= "C:\\WINDOWS\\SYSTEM32\\DRIVERS\\"@);
    assert(uppers(win_forbidden_prefixes())[1] == case_fold_upper(win_forbidden_prefixes()[1]));
    reveal_strlit("C:\\Boot\\");
    reveal_strlit("C:\\BOOT\\");
    assert forall|j: int| 0 <= j < "C:\\Boot\\"@.len() implies (#[trigger] "C:\\Boot\\"@[j] as u32) < 128 by {}
    assert(ascii_upper("C:\\Boot\\"@) =~= "C:\\BOOT\\"@);
    assert(uppers(win_forbidden_prefixes())[2] == case_fold_upper(win_forbidden_prefixes()[2]));
    reveal_strlit("C:\\$");
    reveal_strlit("C:\\$");
    assert forall|j: int| 0 <= j < "C:\\$"@.len() implies (#[trigger] "C:\\$"@[j] as u32) < 128 by {}
    assert(ascii_upper("C:\\$"@) =~= "C:\\$"@);
    assert(uppers(win_forbidden_prefixes())[3] == case_fold_upper(win_forbidden_prefixes()[3]));
}

/// Every ASCII path under the users' directories, the Windows logs and
/// temporary files, `ProgramData`, the program folders and `C:\temp\` or
/// `C:\tmp\` may be read (in any letter case), whatever the user's own
/// directories are.
pub proof fn law_allowed_windows_paths_readable(rest: Seq<char>, env_dirs: Seq<Seq<char>>)
    requires
        ascii_text(rest),
    ensures
        spec_win_path_allowed("C:\\Users\\"@ + rest, env_dirs),
        spec_win_path_allowed("C:\\Windows\\Logs\\"@ + rest, env_dirs),
        spec_win_path_allowed("C:\\Windows\\Temp\\"@ + rest, env_dirs),
        spec_win_path_allowed("C:\\ProgramData\\"@ + rest, env_dirs),
        spec_win_path_allowed("C:\\Program Files\\"@ + rest, env_dirs),
        spec_win_path_allowed("C:\\Program Files (x86)\\"@ + rest, env_dirs),
        spec_win_path_allowed("C:\\temp\\"@ + rest, env_dirs),
        spec_win_path_allowed("C:\\tmp\\"@ + rest, env_dirs),
{
    lemma_windows_forbidden_upper();
    let fu = uppers(win_forbidden_prefixes());
    reveal_strlit("C:\\WINDOWS\\SYSTEM32\\CONFIG\\");
    reveal_strlit("C:\\WINDOWS\\SYSTEM32\\DRIVERS\\");
    reveal_strlit("C:\\BOOT\\");
    reveal_strlit("C:\\$");
    reveal_strlit("C:\\Users\\");
    reveal_strlit("C:\\USERS\\");
    assert forall|j: int| 0 <= j < "C:\\Users\\"@.len() implies (#[trigger] "C:\\Users\\"@[j] as u32) < 128 by {}
    assert(ascii_upper("C:\\Users\\"@) =~= "C:\\USERS\\"@);
    lemma_ascii_upper_concat("C:\\Users\\"@, rest);
    assert(starts_with(case_fold_upper("C:\\Users\\"@ + rest), uppers(win_allowed_prefixes())[0]));
    assert forall|i: int| 0 <= i < fu.len() implies !starts_with(case_fold_upper("C:\\Users\\"@ + rest), #[trigger] fu[i]) by {
        if "C:\\USERS\\"@[3] != fu[i][3] {
            lemma_prefix_mismatch(case_fold_upper("C:\\Users\\"@ + rest), "C:\\USERS\\"@, fu[i], 3);
        } else {
            lemma_prefix_mismatch(case_fold_upper("C:\\Users\\"@ + rest), "C:\\USERS\\"@, fu[i], 11);
        }
    }
    reveal_strlit("C:\\Windows\\Logs\\");
    reveal_strlit("C:\\WINDOWS\\LOGS\\");
    assert forall|j: int| 0 <= j < "C:\\Windows\\Logs\\"@.len() implies (#[trigger] "C:\\Windows\\Logs\\"@[j] as u32) < 128 by {}
    assert(ascii_upper("C:\\Windows\\Logs\\"@) =~= "C:\\WINDOWS\\LOGS\\"@);
    lemma_ascii_upper_concat("C:\\Windows\\Logs\\"@, rest);
    assert(starts_with(case_fold_upper("C:\\Windows\\Logs\\"@ + rest), uppers(win_allowed_prefixes())[1]));
    assert forall|i: int| 0 <= i < fu.len() implies !starts_with(case_fold_upper("C:\\Windows\\Logs\\"@ + rest), #[trigger] fu[i]) by {
        if "C:\\WINDOWS\\LOGS\\"@[3] != fu[i][3] {
            lemma_prefix_mismatch(case_fold_upper("C:\\Windows\\Logs\\"@ + rest), "C:\\WINDOWS\\LOGS\\"@, fu[i], 3);
        } else {
            lemma_prefix_mismatch(case_fold_upper("C:\\Windows\\Logs\\"@ + rest), "C:\\WINDOWS\\LOGS\\"@, fu[i], 11);
        }
    }
    reveal_strlit("C:\\Windows\\Temp\\");
    reveal_strlit("C:\\WINDOWS\\TEMP\\");
    assert forall|j: int| 0 <= j < "C:\\Windows\\Temp\\"@.len() implies (#[trigger] "C:\\Windows\\Temp\\"@[j] as u32) < 128 by {}
    assert(ascii_upper("C:\\Windows\\Temp\\"@) =~= "C:\\WINDOWS\\TEMP\\"@);
    lemma_ascii_upper_concat("C:\\Windows\\Temp\\"@, rest);
    assert(starts_with(case_fold_upper("C:\\Windows\\Temp\\"@ + rest), uppers(win_allowed_prefixes())[2]));
    assert forall|i: int| 0 <= i < fu.len() implies !starts_with(case_fold_upper("C:\\Windows\\Temp\\"@ + rest), #[trigger] fu[i]) by {
        if "C:\\WINDOWS\\TEMP\\"@[3] != fu[i][3] {
            lemma_prefix_mismatch(case_fold_upper("C:\\Windows\\Temp\\"@ + rest), "C:\\WINDOWS\\TEMP\\"@, fu[i], 3);
        } else {
            lemma_prefix_mismatch(case_fold_upper("C:\\Windows\\Temp\\"@ + rest), "C:\\WINDOWS\\TEMP\\"@, fu[i], 11);
        }
    }
    reveal_strlit("C:\\ProgramData\\");
    reveal_strlit("C:\\PROGRAMDATA\\");
    assert forall|j: int| 0 <= j < "C:\\ProgramData\\"@.len() implies (#[trigger] "C:\\ProgramData\\"@[j] as u32) < 128 by {}
    assert(ascii_upper("C:\\ProgramData\\"@) =~= "C:\\PROGRAMDATA\\"@);
    lemma_ascii_upper_concat("C:\\ProgramData\\"@, rest);
    assert(starts_with(case_fold_upper("C:\\ProgramData\\"@ + rest), uppers(win_allowed_prefixes())[3]));
    assert forall|i: int| 0 <= i < fu.len() implies !starts_with(case_fold_upper("C:\\ProgramData\\"@ + rest), #[trigger] fu[i]) by {
        if "C:\\PROGRAMDATA\\"@[3] != fu[i][3] {
            lemma_prefix_mismatch(case_fold_upper("C:\\ProgramData\\"@ + rest), "C:\\PROGRAMDATA\\"@, fu[i], 3);
        } else {
            lemma_prefix_mismatch(case_fold_upper("C:\\ProgramData\\"@ + rest), "C:\\PROGRAMDATA\\"@, fu[i], 11);
        }
    }
    reveal_strlit("C:\\Program Files\\");
    reveal_strlit("C:\\PROGRAM FILES\\");
    assert forall|j: int| 0 <= j < "C:\\Program Files\\"@.len() implies (#[trigger] "C:\\Program Files\\"@[j] as u32) < 128 by {}
    assert(ascii_upper("C:\\Program Files\\"@) =~= "C:\\PROGRAM FILES\\"@);
    lemma_ascii_upper_concat("C:\\Program Files\\"@, rest);
    assert(starts_with(case_fold_upper("C:\\Program Files\\"@ + rest), uppers(win_allowed_prefixes())[4]));
    assert forall|i: int| 0 <= i < fu.len() implies !starts_with(case_fold_upper("C:\\Program Files\\"@ + rest), #[trigger] fu[i]) by {
        if "C:\\PROGRAM FILES\\"@[3] != fu[i][3] {
            lemma_prefix_mismatch(case_fold_upper("C:\\Program Files\\"@ + rest), "C:\\PROGRAM FILES\\"@, fu[i], 3);
        } else {
            lemma_prefix_mismatch(case_fold_upper("C:\\Program Files\\"@ + rest), "C:\\PROGRAM FILES\\"@, fu[i], 11);
        }
    }
    reveal_strlit("C:\\Program Files (x86)\\");
    reveal_strlit("C:\\PROGRAM FILES (X86)\\");
    assert forall|j: int| 0 <= j < "C:\\Program Files (x86)\\"@.len() implies (#[trigger] "C:\\Program Files (x86)\\"@[j] as u32) < 128 by {}
    assert(ascii_upper("C:\\Program Files (x86)\\"@) =~= "C:\\PROGRAM FILES (X86)\\"@);
    lemma_ascii_upper_concat("C:\\Program Files (x86)\\"@, rest);
    assert(starts_with(case_fold_upper("C:\\Program Files (x86)\\"@ + rest), uppers(win_allowed_prefixes())[5]));
    assert forall|i: int| 0 <= i < fu.len() implies !starts_with(case_fold_upper("C:\\Program Files (x86)\\"@ + rest), #[trigger] fu[i]) by {
        if "C:\\PROGRAM FILES (X86)\\"@[3] != fu[i][3] {
            lemma_prefix_mismatch(case_fold_upper("C:\\Program Files (x86)\\"@ + rest), "C:\\PROGRAM FILES (X86)\\"@, fu[i], 3);
        } else {
            lemma_prefix_mismatch(case_fold_upper("C:\\Program Files (x86)\\"@ + rest), "C:\\PROGRAM FILES (X86)\\"@, fu[i], 11);
        }
    }
    reveal_strlit("C:\\temp\\");
    reveal_strlit("C:\\TEMP\\");
    assert forall|j: int| 0 <= j < "C:\\temp\\"@.len() implies (#[trigger] "C:\\temp\\"@[j] as u32) < 128 by {}
    assert(ascii_upper("C:\\temp\\"@) =~= "C:\\TEMP\\"@);
    lemma_ascii_upper_concat("C:\\temp\\"@, rest);
    assert(starts_with(case_fold_upper("C:\\temp\\"@ + rest), uppers(win_allowed_prefixes())[6]));
    assert forall|i: int| 0 <= i < fu.len() implies !starts_with(case_fold_upper("C:\\temp\\"@ + rest), #[trigger] fu[i]) by {
        if "C:\\TEMP\\"@[3] != fu[i][3] {
            lemma_prefix_mismatch(case_fold_upper("C:\\temp\\"@ + rest), "C:\\TEMP\\"@, fu[i], 3);
        } else {
            lemma_prefix_mismatch(case_fold_upper("C:\\temp\\"@ + rest), "C:\\TEMP\\"@, fu[i], 11);
        }
    }
    reveal_strlit("C:\\tmp\\");
    reveal_strlit("C:\\TMP\\");
    assert forall|j: int| 0 <= j < "C:\\tmp\\"@.len() implies (#[trigger] "C:\\tmp\\"@[j] as u32) < 128 by {}
    assert(ascii_upper("C:\\tmp\\"@) =~= "C:\\TMP\\"@);
    lemma_ascii_upper_concat("C:\\tmp\\"@, rest);
    assert(starts_with(case_fold_upper("C:\\tmp\\"@ + rest), uppers(win_allowed_prefixes())[7]));
    assert forall|i: int| 0 <= i < fu.len() implies !starts_with(case_fold_upper("C:\\tmp\\"@ + rest), #[trigger] fu[i]) by {
        if "C:\\TMP\\"@[3] != fu[i][3] {
            lemma_prefix_mismatch(case_fold_upper("C:\\tmp\\"@ + rest), "C:\\TMP\\"@, fu[i], 3);
        } else {
            lemma_prefix_mismatch(case_fold_upper("C:\\tmp\\"@ + rest), "C:\\TMP\\"@, fu[i], 11);
        }
    }
}

/// An ASCII path under the registry hives, the drivers, the boot files or a
/// `C:\$` system folder, in any letter case, is never read, whatever the
/// user's own directories are.
pub proof fn law_protected_windows_paths_refused(path: Seq<char>, env_dirs: Seq<Seq<char>>)
    requires
        ascii_text(path),
        starts_with(ascii_upper(path), "C:\\WINDOWS\\SYSTEM32\\CONFIG\\"@) || starts_with(ascii_upper(path), "C:\\WINDOWS\\SYSTEM32\\DRIVERS\\"@) || starts_with(ascii_upper(path), "C:\\BOOT\\"@) || starts_with(ascii_upper(path), "C:\\$"@),
    ensures
        !spec_win_path_allowed(path, env_dirs),
{
    lemma_windows_forbidden_upper();
    let fu = uppers(win_forbidden_prefixes());
    assert(case_fold_upper(path) == ascii_upper(path));
    if starts_with(ascii_upper(path), "C:\\WINDOWS\\SYSTEM32\\CONFIG\\"@) {
        assert(starts_with(case_fold_upper(path), fu[0]));
    }
    if starts_with(ascii_upper(path), "C:\\WINDOWS\\SYSTEM32\\DRIVERS\\"@) {
        assert(starts_with(case_fold_upper(path), fu[1]));
    }
    if starts_with(ascii_upper(path), "C:\\BOOT\\"@) {
        assert(starts_with(case_fold_upper(path), fu[2]));
    }
    if starts_with(ascii_upper(path), "C:\\$"@) {
        assert(starts_with(case_fold_upper(path), fu[3]));
    }
}

/// Before the last attempt, a request is sent again exactly when it got no
/// answer, or when the answer's status is 429, 500, 502, 503 or 529 and its
/// body reports no context limit; at the last attempt it never is.
pub proof fn law_retried_statuses(post: FailedPost, attempt: u32)
    requires
        attempt <= MAX_RETRIES,
        !context_limited(post),
    ensures
        attempt < MAX_RETRIES ==> (spec_post_step(post, attempt).0 <==> (post is Unreachable || (
        post->status == 429 || post->status == 500 || post->status == 502 || post->status == 503
            || post->status == 529))),
        attempt == MAX_RETRIES ==> !spec_post_step(post, attempt).0,
{
}

/// Only the pairing requests (`/pair`, `/generate-qr`) go through without a
/// secret; every other request must carry exactly `Bearer ` and the paired
/// phone's secret.
pub proof fn law_mobile_requests_need_the_secret(path: Seq<char>, header: Seq<char>, secret: Seq<char>)
    ensures
        is_open_path(path) <==> (path == "/pair"@ || path == "/generate-qr"@),
        carries_secret(header, secret) <==> header == "Bearer "@ + secret,
{
    reveal_strlit("Bearer ");
    if carries_secret(header, secret) {
        assert(header =~= header.subrange(0, 7) + header.subrange(7, header.len() as int));
    }
    if header == "Bearer "@ + secret {
        assert(header.subrange(0, 7) =~= "Bearer "@);
        assert(header.subrange(7, header.len() as int) =~= secret);
    }
}

/// Pairing: after five failed attempts every request is locked out and
/// changes nothing; before that, the pending token less than five minutes
/// (300000 ms) old pairs the device and is used up, and anything else is
/// refused and counts one more failure.
pub proof fn law_pairing_rules(state: PairingState, token: Seq<char>, now_ms: u64, device: PairedDevice)
    ensures
        state.failed_attempts >= 5 ==> spec_pair(state, token, now_ms, device) == (state, PairOutcome::Locked),
        state.failed_attempts < 5 && (state.pending_token matches Some(pt) && pt.token@ == token && (if now_ms
            >= pt.created_at_ms {
            now_ms - pt.created_at_ms
        } else {
            0
        }) < 300000) ==> spec_pair(state, token, now_ms, device).1 == PairOutcome::Paired
            && spec_pair(state, token, now_ms, device).0.paired_device == Some(device)
            && spec_pair(state, token, now_ms, device).0.pending_token is None,
        state.failed_attempts < 5 && !(state.pending_token matches Some(pt) && pt.token@ == token && (if now_ms
            >= pt.created_at_ms {
            now_ms - pt.created_at_ms
        } else {
            0
        }) < 300000) ==> spec_pair(state, token, now_ms, device).1 == PairOutcome::Rejected
            && spec_pair(state, token, now_ms, device).0.failed_attempts == state.failed_attempts + 1,
{
}

/// The background checks run at least five hours apart, a failing check is
/// healed at most once a day, and suggestions are shown at most once a day:
/// with the last time read as the instant (`s`, `n`), each interval has passed
/// exactly when that many hours lie between it and now.
pub proof fn law_monitor_intervals(last: Seq<char>, s: i64, n: u32, now_secs: i64, now_nanos: u32)
    requires
        rfc3339_instant(last) == Some((s, n)),
    ensures
        spec_interval_elapsed(Some(last), now_secs, now_nanos, CHECK_INTERVAL_HOURS) <==> nanos_between(
            s,
            n,
            now_secs,
            now_nanos,
        ) >= 5 * 3600 * 1000000000,
        spec_interval_elapsed(Some(last), now_secs, now_nanos, ATTEMPT_COOLDOWN_HOURS) <==> nanos_between(
            s,
            n,
            now_secs,
            now_nanos,
        ) >= 24 * 3600 * 1000000000,
        spec_interval_elapsed(Some(last), now_secs, now_nanos, SUGGESTION_INTERVAL_HOURS) <==> nanos_between(
            s,
            n,
            now_secs,
            now_nanos,
        ) >= 24 * 3600 * 1000000000,
{
}

/// On Linux the tools that change the system (flushing the DNS cache, killing a process, clearing an app's cache, cancelling print jobs, restarting the print service, running a shell command) are safe actions and every other tool only reads; a shell command's own tier is then decided by its text.
pub proof fn law_linux_tool_tiers(t: ToolSpec)
    ensures
        crate::linux_tools::LinuxNetworkInfo::describes(t) ==> t.tier == SafetyTier::ReadOnly,
        crate::linux_tools::LinuxPing::describes(t) ==> t.tier == SafetyTier::ReadOnly,
        crate::linux_tools::LinuxDnsCheck::describes(t) ==> t.tier == SafetyTier::ReadOnly,
        crate::linux_tools::LinuxHttpCheck::describes(t) ==> t.tier == SafetyTier::ReadOnly,
        crate::linux_tools::LinuxFlushDns::describes(t) ==> t.tier == SafetyTier::SafeAction,
        crate::linux_tools::LinuxSystemInfo::describes(t) ==> t.tier == SafetyTier::ReadOnly,
        crate::linux_tools::LinuxProcessList::describes(t) ==> t.tier == SafetyTier::ReadOnly,
        crate::linux_tools::LinuxDiskUsage::describes(t) ==> t.tier == SafetyTier::ReadOnly,
        crate::linux_tools::LinuxKillProcess::describes(t) ==> t.tier == SafetyTier::SafeAction,
        crate::linux_tools::LinuxAppList::describes(t) ==> t.tier == SafetyTier::ReadOnly,
        crate::linux_tools::LinuxAppDataLs::describes(t) ==> t.tier == SafetyTier::ReadOnly,
        crate::linux_tools::LinuxClearAppCache::describes(t) ==> t.tier == SafetyTier::SafeAction,
        crate::linux_tools::LinuxPrinterList::describes(t) ==> t.tier == SafetyTier::ReadOnly,
        crate::linux_tools::LinuxPrintQueue::describes(t) ==> t.tier == SafetyTier::ReadOnly,
        crate::linux_tools::LinuxCancelPrintJobs::describes(t) ==> t.tier == SafetyTier::SafeAction,
        crate::linux_tools::LinuxRestartCups::describes(t) ==> t.tier == SafetyTier::SafeAction,
        crate::linux_tools::LinuxSystemSummary::describes(t) ==> t.tier == SafetyTier::ReadOnly,
        crate::linux_tools::LinuxReadFile::describes(t) ==> t.tier == SafetyTier::ReadOnly,
        crate::linux_tools::LinuxReadLog::describes(t) ==> t.tier == SafetyTier::ReadOnly,
        crate::linux_tools::ShellRun::describes(t) ==> t.tier == SafetyTier::SafeAction,
{
}

/// On Windows the tools that change the system (flushing the DNS cache, cancelling print jobs, restarting the spooler or a service, killing a process, clearing caches, moving a file, running a shell command) are safe actions and every other tool only reads.
pub proof fn law_windows_tool_tiers(t: ToolSpec)
    ensures
        crate::windows_tools::WinNetworkInfo::describes(t) ==> t.tier == SafetyTier::ReadOnly,
        crate::windows_tools::WinPing::describes(t) ==> t.tier == SafetyTier::ReadOnly,
        crate::windows_tools::WinDnsCheck::describes(t) ==> t.tier == SafetyTier::ReadOnly,
        crate::windows_tools::WinHttpCheck::describes(t) ==> t.tier == SafetyTier::ReadOnly,
        crate::windows_tools::WinFlushDns::describes(t) ==> t.tier == SafetyTier::SafeAction,
        crate::windows_tools::WinPrinterList::describes(t) ==> t.tier == SafetyTier::ReadOnly,
        crate::windows_tools::WinPrintQueue::describes(t) ==> t.tier == SafetyTier::ReadOnly,
        crate::windows_tools::WinCancelPrintJobs::describes(t) ==> t.tier == SafetyTier::SafeAction,
        crate::windows_tools::WinRestartSpooler::describes(t) ==> t.tier == SafetyTier::SafeAction,
        crate::windows_tools::WinSystemInfo::describes(t) ==> t.tier == SafetyTier::ReadOnly,
        crate::windows_tools::WinProcessList::describes(t) ==> t.tier == SafetyTier::ReadOnly,
        crate::windows_tools::WinDiskUsage::describes(t) ==> t.tier == SafetyTier::ReadOnly,
        crate::windows_tools::WinKillProcess::describes(t) ==> t.tier == SafetyTier::SafeAction,
        crate::windows_tools::WinClearCaches::describes(t) ==> t.tier == SafetyTier::SafeAction,
        crate::windows_tools::WinAppList::describes(t) ==> t.tier == SafetyTier::ReadOnly,
        crate::windows_tools::WinAppLogs::describes(t) ==> t.tier == SafetyTier::ReadOnly,
        crate::windows_tools::WinAppDataLs::describes(t) ==> t.tier == SafetyTier::ReadOnly,
        crate::windows_tools::WinClearAppCache::describes(t) ==> t.tier == SafetyTier::SafeAction,
        crate::windows_tools::WinMoveFile::describes(t) ==> t.tier == SafetyTier::SafeAction,
        crate::windows_tools::WinSystemSummary::describes(t) ==> t.tier == SafetyTier::ReadOnly,
        crate::windows_tools::WinReadFile::describes(t) ==> t.tier == SafetyTier::ReadOnly,
        crate::windows_tools::WinReadLog::describes(t) ==> t.tier == SafetyTier::ReadOnly,
        crate::windows_tools::ShellRun::describes(t) ==> t.tier == SafetyTier::SafeAction,
        crate::windows_tools::WinStartupPrograms::describes(t) ==> t.tier == SafetyTier::ReadOnly,
        crate::windows_tools::WinServiceList::describes(t) ==> t.tier == SafetyTier::ReadOnly,
        crate::windows_tools::WinRestartService::describes(t) ==> t.tier == SafetyTier::SafeAction,
{
}

/// The UI payload kinds: `done` and `info` cards carry their summary, a
/// `user_question` is a question card, `spa` a situation card, and any other
/// kind yields no payload.
pub proof fn law_ui_payload_kinds(r: Option<AssistantUiPayload>, v: Json, kind: Seq<char>, summary: Seq<char>)
    requires
        ui_value_is(r, v, kind),
    ensures
        kind == "done"@ && str_field(v, "summary"@) == Some(summary) ==> (r is Some && r->Some_0 is Done
            && r->Some_0->Done_0.summary@ == summary),
        kind == "info"@ && str_field(v, "summary"@) == Some(summary) ==> (r is Some && r->Some_0 is Info
            && r->Some_0->Info_0.summary@ == summary),
        kind == "user_question"@ ==> (r is Some && r->Some_0 is UserQuestion),
        !(kind == "done"@ || kind == "info"@ || kind == "spa"@ || kind == "user_question"@) ==> r is None,
{
    reveal_strlit("done");
    reveal_strlit("info");
    reveal_strlit("spa");
    reveal_strlit("user_question");
    assert("info"@[0] != "done"@[0]);
    assert("user_question"@[0] != "done"@[0]);
    assert("user_question"@ != "info"@);
    assert("user_question"@ != "spa"@);
}

proof fn lemma_combined_at_least(rules: Seq<PolicyRule>, tool_name: Seq<char>, tool_input: Json, i: int)
    requires
        0 <= i < rules.len(),
        rule_effect(rules[i], tool_name, tool_input) is Some,
    ensures
        combined_effect(rules, tool_name, tool_input) is Some,
        spec_restrictiveness(combined_effect(rules, tool_name, tool_input).unwrap()) >= spec_restrictiveness(
            rule_effect(rules[i], tool_name, tool_input).unwrap(),
        ),
    decreases rules.len(),
{
    if i < rules.len() - 1 {
        lemma_combined_at_least(rules.drop_last(), tool_name, tool_input, i);
        assert(rules.drop_last()[i] == rules[i]);
    }
}

/// The rule is a fleet safety rule for every tool or for this tool by name,
/// with no condition, whose effect is `effect`.
pub open spec fn plain_safety_rule(r: PolicyRule, tool_name: Seq<char>, effect: Seq<char>) -> bool {
    &&& r.rule_type@ == "safety"@
    &&& (r.selector@ == "*"@ || r.selector@ == tool_name)
    &&& r.condition is None
    &&& r.effect@ == effect
}

/// Fleet safety rules combine to the most restrictive: a `block` rule that
/// applies blocks the call whatever the other rules say, and a
/// `require_approval` rule that applies leaves the call needing approval or
/// blocked, never approved automatically.
pub proof fn law_most_restrictive_rule_wins(rules: Seq<PolicyRule>, tool_name: Seq<char>, tool_input: Json, i: int)
    requires
        0 <= i < rules.len(),
    ensures
        plain_safety_rule(rules[i], tool_name, "block"@) ==> combined_effect(rules, tool_name, tool_input)
            == Some(SafetyEffect::Block),
        plain_safety_rule(rules[i], tool_name, "require_approval"@) ==> (combined_effect(
            rules,
            tool_name,
            tool_input,
        ) == Some(SafetyEffect::RequireApproval) || combined_effect(rules, tool_name, tool_input) == Some(
            SafetyEffect::Block,
        )),
{
    reveal_strlit("block");
    reveal_strlit("require_approval");
    reveal_strlit("auto_approve");
    reveal_strlit("*");
    if plain_safety_rule(rules[i], tool_name, "block"@) || plain_safety_rule(
        rules[i],
        tool_name,
        "require_approval"@,
    ) {
        assert("block"@[0] != "auto_approve"@[0]);
        assert("require_approval"@[0] != "auto_approve"@[0]);
        assert("block"@[0] != "require_approval"@[0]);
        lemma_combined_at_least(rules, tool_name, tool_input, i);
    }
}

/// History compression: without force, a history of more than six messages
/// estimated at 128000 tokens or more is compressed, keeping the last six;
/// after a context-limit error (forced), the threshold is 72000 tokens and
/// the last four are kept (at least one message is summarized); short or
/// small histories are left alone.
pub proof fn law_compression_thresholds(count: int, tokens: int)
    ensures
        count > 6 && tokens >= 128000 ==> spec_compression_split(count, tokens, false) == Some(count - 6),
        count <= 6 || tokens < 128000 ==> spec_compression_split(count, tokens, false) is None,
        count > 6 && tokens >= 72000 ==> spec_compression_split(count, tokens, true) == Some(
            if count - 4 > 1 {
                count - 4
            } else {
                1
            },
        ),
        count <= 6 || tokens < 72000 ==> spec_compression_split(count, tokens, true) is None,
{
}

/// Command output of up to 10000 characters is kept whole; longer output
/// keeps exactly its first 10000 characters, followed by a note.
pub proof fn law_output_limit(output: Seq<char>)
    ensures
        output.len() <= 10000 ==> spec_truncated(output) == output,
        output.len() > 10000 ==> spec_truncated(output).len() > 10000 && spec_truncated(output).subrange(
            0,
            10000,
        ) == output.subrange(0, 10000),
{
    if output.len() > 10000 {
        let t = spec_truncated(output);
        assert(t.subrange(0, 10000) =~= output.subrange(0, 10000));
    }
}

/// No paywall without a plan (`none`) or during a trial (`trialing`); an
/// `active` plan is paywalled once its usage reaches its limit; any other
/// status is paywalled.
pub proof fn law_paywall_statuses(status: Seq<char>, used: i64, limit: i64)
    ensures
        status == "none"@ || status == "trialing"@ ==> !spec_is_paywalled(status, used, limit),
        status == "active"@ ==> (spec_is_paywalled(status, used, limit) <==> used >= limit),
        !(status == "none"@ || status == "trialing"@ || status == "active"@) ==> spec_is_paywalled(
            status,
            used,
            limit,
        ),
{
    reveal_strlit("none");
    reveal_strlit("trialing");
    reveal_strlit("active");
    assert("active"@[0] != "none"@[0]);
    assert("active"@[0] != "trialing"@[0]);
}

/// A built-in playbook never replaces a file marked `type: user`, and always
/// replaces a file marked `type: system`, one without frontmatter, or none.
pub proof fn law_builtin_overwrite_rule(existing: Option<Seq<char>>)
    ensures
        existing matches Some(c) && has_meta(c) && fm_value(c, "type:"@) == Some("user"@)
            ==> !spec_overwrites_builtin(existing),
        existing matches Some(c) && fm_value(c, "type:"@) == Some("system"@) ==> spec_overwrites_builtin(
            existing,
        ),
        existing matches Some(c) && !has_meta(c) ==> spec_overwrites_builtin(existing),
        existing is None ==> spec_overwrites_builtin(existing),
{
    reveal_strlit("user");
    reveal_strlit("system");
    assert("user"@[0] != "system"@[0]);
}

/// A failed request calls for compressing the history when its error begins
/// with `Context limit exceeded:`.
pub proof fn law_context_failure_prefix(rest: Seq<char>)
    ensures
        spec_is_context_failure("Context limit exceeded:"@ + rest),
{
    let e = "Context limit exceeded:"@ + rest;
    assert(e.subrange(0, "Context limit exceeded:"@.len() as int) =~= "Context limit exceeded:"@);
}

/// The turn asks the model again after the first and second UI protocol
/// errors and ends at the third.
pub proof fn law_third_protocol_error_ends_turn(r: TurnAction, results: Seq<ContentBlock>, count: usize, reason: Seq<char>)
    requires
        protocol_action_is(r, results, count, reason),
    ensures
        count <= 2 ==> r is AskAgain,
        count >= 3 ==> r is ReplyAfter,
{
}

} // verus!
