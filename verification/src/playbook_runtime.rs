//! The state machine that a playbook may declare in an `## FSM` section:
//! which events the conversation has produced, which state they lead to, and
//! what the assistant is told or refused in that state.
use vstd::prelude::*;

use crate::json::{json_text, json_to_string, str_field, Json};
use vstd::string::StrSliceExecFns;
use crate::llm::{ContentBlock, Message, MessageContent};
use crate::playbooks::frontmatter_block;
use crate::text::{
    chars_of, contains, find, find_exec, join_strings, joined, lines, lines_of, owned, push_str,
    slice_vec, starts_with, starts_with_exec, str_contains, str_eq, string_of, string_of_all,
    to_lowercase, trim, trim_bounds, trim_start, trimmed, unicode_lower,
};

verus! {

/// A state of the machine.
#[derive(Debug, Clone)]
pub struct FsmStateSpec {
    pub summary: String,
    pub llm_guidance: Vec<String>,
}

/// A transition: from one state to another when one of its triggers occurs.
#[derive(Debug, Clone)]
pub struct FsmTransitionSpec {
    pub id: Option<String>,
    pub from: String,
    pub to: String,
    pub goal: String,
    pub acceptance: Vec<String>,
    pub triggers: Vec<String>,
    pub llm_guidance: Vec<String>,
}

/// The states in which the playbook is complete.
#[derive(Debug, Clone)]
pub struct FsmTerminalSpec {
    pub states: Vec<String>,
    pub goal: String,
}

/// Command patterns refused per state (`*` for every state without its own list).
#[derive(Debug, Clone)]
pub struct FsmGuards {
    pub blocked_commands: Vec<(String, Vec<String>)>,
}

/// A playbook's state machine. The maps of the declaration are kept as lists
/// of entries; a lookup takes the first entry with the key.
#[derive(Debug)]
pub struct FsmSpec {
    pub version: u32,
    pub machine: String,
    pub initial_state: String,
    pub states: Vec<(String, FsmStateSpec)>,
    pub events: Vec<(String, Json)>,
    pub transitions: Vec<FsmTransitionSpec>,
    pub terminal: FsmTerminalSpec,
    pub guards: FsmGuards,
}

/// Where the machine stands, and where it can go next.
#[derive(Debug, Clone)]
pub struct FsmSnapshot {
    pub machine: String,
    pub state: String,
    pub terminal: bool,
    pub state_summary: String,
    pub next: Vec<FsmNextTransition>,
}

/// A transition open from the current state.
#[derive(Debug, Clone)]
pub struct FsmNextTransition {
    pub to: String,
    pub goal: String,
    pub acceptance: Vec<String>,
    pub triggers: Vec<String>,
}

/// The texts of a list of strings.
pub open spec fn views(v: Seq<String>) -> Seq<Seq<char>> {
    v.map_values(|s: String| s@)
}

/// A copy of a list of strings.
pub fn copy_strings(v: &Vec<String>) -> (r: Vec<String>)
    ensures
        r@ == v@,
{
    let mut r: Vec<String> = Vec::new();
    let mut i: usize = 0;
    while i < v.len()
        invariant
            i <= v@.len(),
            r@ == v@.subrange(0, i as int),
        decreases v@.len() - i,
    {
        r.push(v[i].clone());
        assert(r@ =~= v@.subrange(0, i + 1));
        i += 1;
    }
    assert(v@.subrange(0, v@.len() as int) =~= v@);
    r
}

// ── Reading the playbook ──

/// The trimmed value of the first line (trimmed) that starts with `key`.
pub open spec fn first_value(ls: Seq<Seq<char>>, key: Seq<char>) -> Option<Seq<char>>
    decreases ls.len(),
{
    if ls.len() == 0 {
        None
    } else {
        let l = trim(ls[0]);
        if starts_with(l, key) {
            Some(trim(l.subrange(key.len() as int, l.len() as int)))
        } else {
            first_value(ls.drop_first(), key)
        }
    }
}

/// The first `name:` of a playbook's frontmatter.
pub open spec fn frontmatter_name(content: Seq<char>) -> Option<Seq<char>> {
    match frontmatter_block(content) {
        Some(block) => first_value(lines(block), "name:"@),
        None => None,
    }
}

/// The name a playbook's frontmatter gives it: the first `name:` line.
pub fn extract_playbook_name_from_frontmatter(content: &str) -> (r: Option<String>)
    ensures
        r matches Some(n) ==> frontmatter_name(content@) == Some(n@),
        r is None ==> frontmatter_name(content@) is None,
{
    let cv = chars_of(content);
    let mut lo: usize = 0;
    assert(cv@.subrange(0, cv@.len() as int) =~= cv@);
    while lo < cv.len() && crate::text::is_ws_char(cv[lo])
        invariant
            lo <= cv@.len(),
            trim_start(cv@) == trim_start(cv@.subrange(lo as int, cv@.len() as int)),
        decreases cv@.len() - lo,
    {
        let ghost cur = cv@.subrange(lo as int, cv@.len() as int);
        assert(cur.drop_first() =~= cv@.subrange(lo + 1, cv@.len() as int));
        lo += 1;
    }
    let t = slice_vec(&cv, lo, cv.len());
    assert(trim_start(t@) == t@) by {
        if t@.len() > 0 {
            assert(t@[0] == cv@[lo as int]);
        }
    }
    let dashes = chars_of("---");
    if !starts_with_exec(&t, &dashes) {
        return None;
    }
    let after = slice_vec(&t, dashes.len(), t.len());
    let close = chars_of("\n---");
    let end = match find_exec(&after, &close) {
        Some(e) => e,
        None => return None,
    };
    let block = slice_vec(&after, 0, end);
    assert(frontmatter_block(content@) == Some(block@));
    let ls = lines_of(&block);
    let ghost lv = ls@.map_values(|l: Vec<char>| l@);
    let kv = chars_of("name:");
    let mut i: usize = 0;
    assert(lv.subrange(0, lv.len() as int) =~= lv);
    while i < ls.len()
        invariant
            i <= ls@.len(),
            kv@ == "name:"@,
            lv == ls@.map_values(|l: Vec<char>| l@),
            lv == lines(block@),
            frontmatter_block(content@) == Some(block@),
            first_value(lv, "name:"@) == first_value(lv.subrange(i as int, lv.len() as int), "name:"@),
        decreases ls@.len() - i,
    {
        let ghost rest = lv.subrange(i as int, lv.len() as int);
        assert(rest[0] == ls@[i as int]@);
        assert(rest.drop_first() =~= lv.subrange(i + 1, lv.len() as int));
        let line = &ls[i];
        let (a, b) = trim_bounds(line, 0, line.len());
        assert(line@.subrange(0, line@.len() as int) =~= line@);
        let l = slice_vec(line, a, b);
        if starts_with_exec(&l, &kv) {
            let (c, d) = trim_bounds(&l, kv.len(), l.len());
            let r = string_of(&l, c, d);
            assert(trim(rest[0]) == l@);
            assert(first_value(rest, "name:"@) == Some(r@));
            return Some(r);
        }
        i += 1;
    }
    None
}

/// The body of the first fenced block after the `## FSM` heading, trimmed.
pub open spec fn fsm_block(md: Seq<char>) -> Option<Seq<char>> {
    match find(md, "## FSM"@) {
        None => None,
        Some(idx) => {
            let after = md.subrange(idx, md.len() as int);
            match find(after, "```"@) {
                None => None,
                Some(fs) => {
                    let af = after.subrange(fs + 3, after.len() as int);
                    match find(af, "\n"@) {
                        None => None,
                        Some(nl) => {
                            let rest = af.subrange(nl + 1, af.len() as int);
                            match find(rest, "\n```"@) {
                                None => None,
                                Some(end) => Some(trim(rest.subrange(0, end))),
                            }
                        },
                    }
                },
            }
        },
    }
}

/// The JSON text of a playbook's machine: the body of the first fenced
/// block after its `## FSM` heading.
pub fn extract_fsm_block(markdown: &str) -> (r: Option<String>)
    ensures
        r matches Some(b) ==> fsm_block(markdown@) == Some(b@),
        r is None ==> fsm_block(markdown@) is None,
{
    proof {
        reveal_strlit("```");
        reveal_strlit("\n");
    }
    let md = chars_of(markdown);
    let heading = chars_of("## FSM");
    let idx = match find_exec(&md, &heading) {
        Some(i) => i,
        None => return None,
    };
    let after = slice_vec(&md, idx, md.len());
    let fence = chars_of("```");
    let fs = match find_exec(&after, &fence) {
        Some(i) => i,
        None => return None,
    };
    let af = slice_vec(&after, fs + 3, after.len());
    let nl = chars_of("\n");
    let n = match find_exec(&af, &nl) {
        Some(i) => i,
        None => return None,
    };
    let rest = slice_vec(&af, n + 1, af.len());
    let close = chars_of("\n```");
    let end = match find_exec(&rest, &close) {
        Some(i) => i,
        None => return None,
    };
    let (a, b) = trim_bounds(&rest, 0, end);
    Some(string_of(&rest, a, b))
}

// ── Events ──

/// The events a user's text produces: a confirmation, a skipped optional
/// step, a submitted secure form (compared in lower case, trimmed).
pub open spec fn text_events(text: Seq<char>) -> Seq<Seq<char>> {
    let lower = unicode_lower(trim(text));
    (if lower == "go ahead"@ || lower == "yes"@ || lower == "okay"@ || lower == "ok"@ || lower
        == "continue"@ {
        seq!["user_confirm"@]
    } else {
        Seq::empty()
    }) + (if contains(lower, "skip this optional step"@) {
        seq!["user_skip_optional"@]
    } else {
        Seq::empty()
    }) + (if contains(lower, "credentials were submitted via noah secure form"@) {
        seq!["secure_form_submitted"@]
    } else {
        Seq::empty()
    })
}

/// Append the events of a user's text.
pub fn push_text_event(events: &mut Vec<String>, text: &str)
    ensures
        views(final(events)@) == views(old(events)@) + text_events(text@),
{
    let t = trimmed(text);
    let lower = to_lowercase(t.as_str());
    let l = lower.as_str();
    let ghost before = views(events@);
    if str_eq(l, "go ahead") || str_eq(l, "yes") || str_eq(l, "okay") || str_eq(l, "ok") || str_eq(
        l,
        "continue",
    ) {
        events.push(owned("user_confirm"));
    }
    let ghost mid = views(events@);
    if str_contains(l, "skip this optional step") {
        events.push(owned("user_skip_optional"));
    }
    let ghost mid2 = views(events@);
    if str_contains(l, "credentials were submitted via noah secure form") {
        events.push(owned("secure_form_submitted"));
    }
    proof {
        let lw = unicode_lower(trim(text@));
        let a: Seq<Seq<char>> = if lw == "go ahead"@ || lw == "yes"@ || lw == "okay"@ || lw
            == "ok"@ || lw == "continue"@ {
            seq!["user_confirm"@]
        } else {
            Seq::empty()
        };
        let b: Seq<Seq<char>> = if contains(lw, "skip this optional step"@) {
            seq!["user_skip_optional"@]
        } else {
            Seq::empty()
        };
        let c: Seq<Seq<char>> = if contains(lw, "credentials were submitted via noah secure form"@) {
            seq!["secure_form_submitted"@]
        } else {
            Seq::empty()
        };
        assert(mid =~= before + a);
        assert(mid2 =~= mid + b);
        assert(views(events@) =~= mid2 + c);
        assert(text_events(text@) == a + b + c);
        assert(before + a + b + c =~= before + (a + b + c));
    }
}

/// The event a tool call declares: `fsm_emit_event` with a non-blank `event`.
pub open spec fn block_events(b: ContentBlock) -> Seq<Seq<char>> {
    match b {
        ContentBlock::ToolUse { name, input, .. } => if name@ == "fsm_emit_event"@ {
            match str_field(input, "event"@) {
                Some(e) => if trim(e).len() > 0 {
                    seq![trim(e)]
                } else {
                    Seq::empty()
                },
                None => Seq::empty(),
            }
        } else {
            Seq::empty()
        },
        _ => Seq::empty(),
    }
}

/// The events of a list of blocks, in order.
pub open spec fn blocks_events(bs: Seq<ContentBlock>) -> Seq<Seq<char>>
    decreases bs.len(),
{
    if bs.len() == 0 {
        Seq::empty()
    } else {
        blocks_events(bs.drop_last()) + block_events(bs.last())
    }
}

/// The events of one message.
pub open spec fn message_events(m: Message) -> Seq<Seq<char>> {
    match m.content {
        MessageContent::Text(t) => text_events(t@),
        MessageContent::Blocks(bs) => blocks_events(bs@),
    }
}

/// The events of a conversation, in order.
pub open spec fn events_of(ms: Seq<Message>) -> Seq<Seq<char>>
    decreases ms.len(),
{
    if ms.len() == 0 {
        Seq::empty()
    } else {
        events_of(ms.drop_last()) + message_events(ms.last())
    }
}

/// The events of a conversation: what the user's texts say and what
/// `fsm_emit_event` calls declare.
pub fn collect_events(messages: &Vec<Message>) -> (r: Vec<String>)
    ensures
        views(r@) == events_of(messages@),
{
    let mut events: Vec<String> = Vec::new();
    let mut i: usize = 0;
    while i < messages.len()
        invariant
            i <= messages@.len(),
            views(events@) == events_of(messages@.subrange(0, i as int)),
        decreases messages@.len() - i,
    {
        let ghost pre = messages@.subrange(0, i + 1);
        assert(pre.drop_last() =~= messages@.subrange(0, i as int));
        let message = &messages[i];
        match &message.content {
            MessageContent::Text(text) => {
                push_text_event(&mut events, text.as_str());
            },
            MessageContent::Blocks(blocks) => {
                let ghost start = views(events@);
                let mut k: usize = 0;
                while k < blocks.len()
                    invariant
                        k <= blocks@.len(),
                        views(events@) == start + blocks_events(blocks@.subrange(0, k as int)),
                    decreases blocks@.len() - k,
                {
                    let ghost bpre = blocks@.subrange(0, k + 1);
                    assert(bpre.drop_last() =~= blocks@.subrange(0, k as int));
                    let ghost prev = views(events@);
                    match &blocks[k] {
                        ContentBlock::ToolUse { name, input, .. } => {
                            if str_eq(name.as_str(), "fsm_emit_event") {
                                match input.str_field("event") {
                                    Some(e) => {
                                        let t = trimmed(e);
                                        if t.as_str().unicode_len() > 0 {
                                            events.push(t);
                                        }
                                    },
                                    None => {},
                                }
                            }
                        },
                        _ => {},
                    }
                    assert(views(events@) =~= prev + block_events(blocks@[k as int]));
                    k += 1;
                }
                assert(blocks@.subrange(0, blocks@.len() as int) =~= blocks@);
            },
        }
        i += 1;
    }
    assert(messages@.subrange(0, messages@.len() as int) =~= messages@);
    events
}

// ── States ──

/// The transition fires on `event` in `state`.
pub open spec fn fires(t: FsmTransitionSpec, state: Seq<char>, event: Seq<char>) -> bool {
    t.from@ == state && views(t.triggers@).contains(event)
}

/// The first transition that fires on `event` in `state`.
pub open spec fn first_firing(ts: Seq<FsmTransitionSpec>, state: Seq<char>, event: Seq<char>) -> Option<
    FsmTransitionSpec,
>
    decreases ts.len(),
{
    if ts.len() == 0 {
        None
    } else if fires(ts[0], state, event) {
        Some(ts[0])
    } else {
        first_firing(ts.drop_first(), state, event)
    }
}

/// The state after `event` in `state`: the target of the first transition
/// that fires, else `state` unchanged.
pub open spec fn step(spec: FsmSpec, state: Seq<char>, event: Seq<char>) -> Seq<char> {
    match first_firing(spec.transitions@, state, event) {
        Some(t) => t.to@,
        None => state,
    }
}

/// The state that the events lead to from the initial state.
pub open spec fn run_events(spec: FsmSpec, events: Seq<Seq<char>>) -> Seq<char>
    decreases events.len(),
{
    if events.len() == 0 {
        spec.initial_state@
    } else {
        step(spec, run_events(spec, events.drop_last()), events.last())
    }
}

fn has_string(v: &Vec<String>, s: &str) -> (b: bool)
    ensures
        b == views(v@).contains(s@),
{
    let mut i: usize = 0;
    while i < v.len()
        invariant
            i <= v@.len(),
            forall|j: int| 0 <= j < i ==> v@[j]@ != s@,
        decreases v@.len() - i,
    {
        if str_eq(v[i].as_str(), s) {
            assert(views(v@)[i as int] == s@);
            return true;
        }
        i += 1;
    }
    proof {
        if views(v@).contains(s@) {
            let j = choose|j: int| 0 <= j < views(v@).len() && views(v@)[j] == s@;
            assert(v@[j]@ == s@);
        }
    }
    false
}

/// The state after `event` in `state`.
pub fn step_exec(spec: &FsmSpec, state: &str, event: &str) -> (r: String)
    ensures
        r@ == step(*spec, state@, event@),
{
    let ts = &spec.transitions;
    let mut i: usize = 0;
    assert(ts@.subrange(0, ts@.len() as int) =~= ts@);
    while i < ts.len()
        invariant
            i <= ts@.len(),
            ts == &spec.transitions,
            first_firing(ts@, state@, event@) == first_firing(
                ts@.subrange(i as int, ts@.len() as int),
                state@,
                event@,
            ),
        decreases ts@.len() - i,
    {
        let ghost rest = ts@.subrange(i as int, ts@.len() as int);
        assert(rest[0] == ts@[i as int]);
        assert(rest.drop_first() =~= ts@.subrange(i + 1, ts@.len() as int));
        let t = &ts[i];
        if str_eq(t.from.as_str(), state) && has_string(&t.triggers, event) {
            return t.to.clone();
        }
        i += 1;
    }
    owned(state)
}

/// The state that the events lead to, from the initial state: on each event
/// the first transition from the current state that lists it as a trigger.
pub fn compute_state(spec: &FsmSpec, events: &Vec<String>) -> (r: String)
    ensures
        r@ == run_events(*spec, views(events@)),
{
    let mut state = spec.initial_state.clone();
    let mut i: usize = 0;
    while i < events.len()
        invariant
            i <= events@.len(),
            state@ == run_events(*spec, views(events@).subrange(0, i as int)),
        decreases events@.len() - i,
    {
        let ghost pre = views(events@).subrange(0, i + 1);
        assert(pre.drop_last() =~= views(events@).subrange(0, i as int));
        state = step_exec(spec, state.as_str(), events[i].as_str());
        i += 1;
    }
    assert(views(events@).subrange(0, events@.len() as int) =~= views(events@));
    state
}

// ── Snapshot ──

/// The first state entry named `key`.
pub open spec fn state_lookup(states: Seq<(String, FsmStateSpec)>, key: Seq<char>) -> Option<
    FsmStateSpec,
>
    decreases states.len(),
{
    if states.len() == 0 {
        None
    } else if states[0].0@ == key {
        Some(states[0].1)
    } else {
        state_lookup(states.drop_first(), key)
    }
}

/// The summary of `state`, empty when the state is not declared.
pub open spec fn state_summary(spec: FsmSpec, state: Seq<char>) -> Seq<char> {
    match state_lookup(spec.states@, state) {
        Some(s) => s.summary@,
        None => Seq::empty(),
    }
}

/// The transitions out of `state`, in declaration order.
pub open spec fn next_transitions(ts: Seq<FsmTransitionSpec>, state: Seq<char>) -> Seq<
    FsmTransitionSpec,
>
    decreases ts.len(),
{
    if ts.len() == 0 {
        Seq::empty()
    } else {
        let rest = next_transitions(ts.drop_last(), state);
        if ts.last().from@ == state {
            rest.push(ts.last())
        } else {
            rest
        }
    }
}

/// `n` describes the transition `t`.
pub open spec fn next_is(n: FsmNextTransition, t: FsmTransitionSpec) -> bool {
    &&& n.to@ == t.to@
    &&& n.goal@ == t.goal@
    &&& n.acceptance@ == t.acceptance@
    &&& n.triggers@ == t.triggers@
}

/// The snapshot of the machine of playbook `name` after the conversation:
/// its name (the playbook's when the machine has none), the state the events
/// lead to, whether that state is terminal, its summary, and the transitions
/// out of it.
pub open spec fn snapshot_is(snap: FsmSnapshot, name: Seq<char>, msgs: Seq<Message>, spec: FsmSpec) -> bool {
    let state = run_events(spec, events_of(msgs));
    let next = next_transitions(spec.transitions@, state);
    &&& snap.machine@ == (if spec.machine@.len() == 0 {
        name
    } else {
        spec.machine@
    })
    &&& snap.state@ == state
    &&& snap.terminal == views(spec.terminal.states@).contains(state)
    &&& snap.state_summary@ == state_summary(spec, state)
    &&& snap.next@.len() == next.len()
    &&& forall|i: int| 0 <= i < next.len() ==> next_is(#[trigger] snap.next@[i], next[i])
}

fn summary_of(spec: &FsmSpec, state: &str) -> (r: String)
    ensures
        r@ == state_summary(*spec, state@),
{
    let ss = &spec.states;
    let mut i: usize = 0;
    assert(ss@.subrange(0, ss@.len() as int) =~= ss@);
    while i < ss.len()
        invariant
            i <= ss@.len(),
            ss == &spec.states,
            state_lookup(ss@, state@) == state_lookup(ss@.subrange(i as int, ss@.len() as int), state@),
        decreases ss@.len() - i,
    {
        let ghost rest = ss@.subrange(i as int, ss@.len() as int);
        assert(rest[0] == ss@[i as int]);
        assert(rest.drop_first() =~= ss@.subrange(i + 1, ss@.len() as int));
        if str_eq(ss[i].0.as_str(), state) {
            return ss[i].1.summary.clone();
        }
        i += 1;
    }
    String::new()
}

fn next_of(spec: &FsmSpec, state: &str) -> (r: Vec<FsmNextTransition>)
    ensures
        r@.len() == next_transitions(spec.transitions@, state@).len(),
        forall|i: int|
            0 <= i < r@.len() ==> next_is(
                #[trigger] r@[i],
                next_transitions(spec.transitions@, state@)[i],
            ),
{
    let ts = &spec.transitions;
    let mut out: Vec<FsmNextTransition> = Vec::new();
    let mut i: usize = 0;
    while i < ts.len()
        invariant
            i <= ts@.len(),
            ts == &spec.transitions,
            out@.len() == next_transitions(ts@.subrange(0, i as int), state@).len(),
            forall|k: int|
                0 <= k < out@.len() ==> next_is(
                    #[trigger] out@[k],
                    next_transitions(ts@.subrange(0, i as int), state@)[k],
                ),
        decreases ts@.len() - i,
    {
        let ghost pre = ts@.subrange(0, i + 1);
        assert(pre.drop_last() =~= ts@.subrange(0, i as int));
        let t = &ts[i];
        if str_eq(t.from.as_str(), state) {
            out.push(
                FsmNextTransition {
                    to: t.to.clone(),
                    goal: t.goal.clone(),
                    acceptance: copy_strings(&t.acceptance),
                    triggers: copy_strings(&t.triggers),
                },
            );
        }
        i += 1;
    }
    assert(ts@.subrange(0, ts@.len() as int) =~= ts@);
    out
}

/// The snapshot of the active playbook's machine after the conversation, or
/// `None` when no playbook is active or it declares no machine (`spec`).
pub fn snapshot_for_playbook(
    active_playbook: Option<&str>,
    messages: &Vec<Message>,
    spec: Option<&FsmSpec>,
) -> (r: Option<FsmSnapshot>)
    ensures
        r is Some <==> (active_playbook is Some && spec is Some),
        r matches Some(snap) ==> snapshot_is(
            snap,
            active_playbook.unwrap()@,
            messages@,
            *spec.unwrap(),
        ),
{
    let name = match active_playbook {
        Some(n) => n,
        None => return None,
    };
    let spec = match spec {
        Some(s) => s,
        None => return None,
    };
    let events = collect_events(messages);
    let state = compute_state(spec, &events);
    let terminal = has_string(&spec.terminal.states, state.as_str());
    let state_summary = summary_of(spec, state.as_str());
    let next = next_of(spec, state.as_str());
    let machine = if spec.machine.as_str().unicode_len() == 0 {
        owned(name)
    } else {
        spec.machine.clone()
    };
    Some(FsmSnapshot { machine, state, terminal, state_summary, next })
}

// ── What the assistant is told ──

/// The line of a next transition in the governance overlay, and its
/// acceptance line when it has criteria.
pub open spec fn transition_text(state: Seq<char>, n: FsmNextTransition) -> Seq<char> {
    "- `"@ + state + "` -> `"@ + n.to@ + "`: "@ + (if n.goal@.len() == 0 {
        "(goal unspecified)"@
    } else {
        n.goal@
    }) + " | triggers: "@ + (if n.triggers@.len() == 0 {
        "(none)"@
    } else {
        joined(views(n.triggers@), ", "@)
    }) + "\n"@ + (if n.acceptance@.len() == 0 {
        Seq::empty()
    } else {
        "  acceptance: "@ + joined(views(n.acceptance@), " | "@) + "\n"@
    })
}

/// The lines of the given next transitions.
pub open spec fn transitions_text(state: Seq<char>, ns: Seq<FsmNextTransition>) -> Seq<char>
    decreases ns.len(),
{
    if ns.len() == 0 {
        Seq::empty()
    } else {
        transitions_text(state, ns.drop_last()) + transition_text(state, ns.last())
    }
}

/// The governance overlay for a snapshot: its machine, state and summary,
/// then whether it is terminal or its first three next transitions, then the
/// reminder to emit events.
pub open spec fn overlay_text(snap: FsmSnapshot) -> Seq<char> {
    "\n\n## Playbook Governance Mode\nActive playbook: `"@ + snap.machine@ + "`\nFSM state: `"@
        + snap.state@ + "`\nState summary: "@ + (if snap.state_summary@.len() == 0 {
        "(no summary provided)"@
    } else {
        snap.state_summary@
    }) + "\n"@ + (if snap.terminal {
        "Terminal condition reached for FSM.\n"@
    } else if snap.next@.len() > 0 {
        "Possible next transitions:\n"@ + transitions_text(
            snap.state@,
            snap.next@.take(if snap.next@.len() < 3 { snap.next@.len() as int } else { 3 }),
        )
    } else {
        Seq::empty()
    }) + "When a milestone is reached, call `fsm_emit_event` before your final ui_* response."@
}

/// The overlay when the active playbook declares no machine.
pub open spec fn plain_overlay_text(name: Seq<char>) -> Seq<char> {
    "\n\n## Playbook Governance Mode\nActive playbook: `"@ + name
        + "`.\nTreat this playbook as binding protocol until its completion criteria are met."@
}

fn push_transition(out: &mut String, state: &str, n: &FsmNextTransition)
    ensures
        final(out)@ == old(out)@ + transition_text(state@, *n),
{
    let ghost start = out@;
    push_str(out, "- `");
    push_str(out, state);
    push_str(out, "` -> `");
    push_str(out, n.to.as_str());
    push_str(out, "`: ");
    if n.goal.as_str().unicode_len() == 0 {
        push_str(out, "(goal unspecified)");
    } else {
        push_str(out, n.goal.as_str());
    }
    push_str(out, " | triggers: ");
    if n.triggers.len() == 0 {
        push_str(out, "(none)");
    } else {
        let j = join_strings(&n.triggers, ", ");
        push_str(out, j.as_str());
    }
    push_str(out, "\n");
    if n.acceptance.len() > 0 {
        push_str(out, "  acceptance: ");
        let j = join_strings(&n.acceptance, " | ");
        push_str(out, j.as_str());
        push_str(out, "\n");
    }
    assert(out@ =~= start + transition_text(state@, *n));
}

/// The governance overlay of a snapshot (see `overlay_text`).
pub fn overlay_for_snapshot(snap: &FsmSnapshot) -> (r: String)
    ensures
        r@ == overlay_text(*snap),
{
    let mut out = owned("\n\n## Playbook Governance Mode\nActive playbook: `");
    push_str(&mut out, snap.machine.as_str());
    push_str(&mut out, "`\nFSM state: `");
    push_str(&mut out, snap.state.as_str());
    push_str(&mut out, "`\nState summary: ");
    if snap.state_summary.as_str().unicode_len() == 0 {
        push_str(&mut out, "(no summary provided)");
    } else {
        push_str(&mut out, snap.state_summary.as_str());
    }
    push_str(&mut out, "\n");
    let ghost head = out@;
    if snap.terminal {
        push_str(&mut out, "Terminal condition reached for FSM.\n");
    } else if snap.next.len() > 0 {
        push_str(&mut out, "Possible next transitions:\n");
        let ghost lead = out@;
        let k: usize = if snap.next.len() < 3 {
            snap.next.len()
        } else {
            3
        };
        let mut i: usize = 0;
        while i < k
            invariant
                i <= k <= snap.next@.len(),
                out@ == lead + transitions_text(snap.state@, snap.next@.take(i as int)),
            decreases k - i,
        {
            assert(snap.next@.take(i + 1).drop_last() =~= snap.next@.take(i as int));
            push_transition(&mut out, snap.state.as_str(), &snap.next[i]);
            i += 1;
        }
    } else {
        assert(head + Seq::<char>::empty() =~= head);
    }
    push_str(
        &mut out,
        "When a milestone is reached, call `fsm_emit_event` before your final ui_* response.",
    );
    out
}

/// The playbook section of the system prompt: nothing when no playbook is
/// active, the binding-protocol reminder when its machine is unknown, else
/// the overlay of its snapshot.
pub fn governance_overlay(
    active_playbook: Option<&str>,
    messages: &Vec<Message>,
    spec: Option<&FsmSpec>,
) -> (r: String)
    ensures
        active_playbook is None ==> r@.len() == 0,
        active_playbook matches Some(name) ==> (spec is None ==> r@ == plain_overlay_text(name@)),
        active_playbook matches Some(name) ==> (spec matches Some(sp) ==> exists|snap: FsmSnapshot|
            snapshot_is(snap, name@, messages@, *sp) && r@ == overlay_text(snap)),
{
    let name = match active_playbook {
        Some(n) => n,
        None => return String::new(),
    };
    match snapshot_for_playbook(active_playbook, messages, spec) {
        None => {
            let mut out = owned("\n\n## Playbook Governance Mode\nActive playbook: `");
            push_str(&mut out, name);
            push_str(
                &mut out,
                "`.\nTreat this playbook as binding protocol until its completion criteria are met.",
            );
            out
        },
        Some(snap) => overlay_for_snapshot(&snap),
    }
}

/// A response text that declares the session done.
pub open spec fn declares_done(text: Seq<char>) -> bool {
    let lower = unicode_lower(text);
    contains(lower, "[done]"@) || contains(lower, "\\\"kind\\\":\\\"done\\\""@) || contains(
        lower,
        "\\\"kind\\\": \\\"done\\\""@,
    )
}

/// A final response that declares done while the machine is not in a terminal state.
pub open spec fn refuses_done(sp: FsmSpec, msgs: Seq<Message>, text: Seq<char>) -> bool {
    declares_done(text) && !views(sp.terminal.states@).contains(run_events(sp, events_of(msgs)))
}

/// The guard message when a final response declares done before the
/// machine's terminal state (`None` when it may stand).
pub fn validate_final_response(
    active_playbook: Option<&str>,
    messages: &Vec<Message>,
    user_message: &str,
    visible_text: &str,
    spec: Option<&FsmSpec>,
) -> (r: Option<String>)
    ensures
        r is Some <==> (active_playbook is Some && spec is Some && refuses_done(
            *spec.unwrap(),
            messages@,
            visible_text@,
        )),
        r matches Some(m) ==> m@ == "Policy guard: `ui_done` is not allowed before terminal state. Current state is `"@
            + run_events(*spec.unwrap(), events_of(messages@)) + "`."@,
{
    let snapshot = match snapshot_for_playbook(active_playbook, messages, spec) {
        Some(s) => s,
        None => return None,
    };
    let lower = to_lowercase(visible_text);
    let l = lower.as_str();
    let is_done = str_contains(l, "[done]") || str_contains(l, "\\\"kind\\\":\\\"done\\\"")
        || str_contains(l, "\\\"kind\\\": \\\"done\\\"");
    if is_done && !snapshot.terminal {
        let mut m = owned(
            "Policy guard: `ui_done` is not allowed before terminal state. Current state is `",
        );
        push_str(&mut m, snapshot.state.as_str());
        push_str(&mut m, "`.");
        return Some(m);
    }
    None
}

/// The first guard entry named `key`.
pub open spec fn guard_lookup(entries: Seq<(String, Vec<String>)>, key: Seq<char>) -> Option<
    Seq<String>,
>
    decreases entries.len(),
{
    if entries.len() == 0 {
        None
    } else if entries[0].0@ == key {
        Some(entries[0].1@)
    } else {
        guard_lookup(entries.drop_first(), key)
    }
}

/// The patterns refused in `state`: its own list, else the `*` list.
pub open spec fn guard_patterns(spec: FsmSpec, state: Seq<char>) -> Option<Seq<String>> {
    match guard_lookup(spec.guards.blocked_commands@, state) {
        Some(ps) => Some(ps),
        None => guard_lookup(spec.guards.blocked_commands@, "*"@),
    }
}

/// The first pattern that occurs in the lowercased command, compared in lower case.
pub open spec fn first_hit(ps: Seq<String>, lower: Seq<char>) -> Option<Seq<char>>
    decreases ps.len(),
{
    if ps.len() == 0 {
        None
    } else if contains(lower, unicode_lower(ps[0]@)) {
        Some(ps[0]@)
    } else {
        first_hit(ps.drop_first(), lower)
    }
}

/// The pattern that refuses `command` in the state the conversation has led
/// to, if any.
pub open spec fn guard_hit(sp: FsmSpec, msgs: Seq<Message>, command: Seq<char>) -> Option<Seq<char>> {
    match guard_patterns(sp, run_events(sp, events_of(msgs))) {
        Some(ps) => first_hit(ps, unicode_lower(command)),
        None => None,
    }
}

fn lookup_guard<'a>(entries: &'a Vec<(String, Vec<String>)>, key: &str) -> (r: Option<
    &'a Vec<String>,
>)
    ensures
        r matches Some(v) ==> guard_lookup(entries@, key@) == Some(v@),
        r is None ==> guard_lookup(entries@, key@) is None,
{
    let mut i: usize = 0;
    assert(entries@.subrange(0, entries@.len() as int) =~= entries@);
    while i < entries.len()
        invariant
            i <= entries@.len(),
            guard_lookup(entries@, key@) == guard_lookup(
                entries@.subrange(i as int, entries@.len() as int),
                key@,
            ),
        decreases entries@.len() - i,
    {
        let ghost rest = entries@.subrange(i as int, entries@.len() as int);
        assert(rest[0] == entries@[i as int]);
        assert(rest.drop_first() =~= entries@.subrange(i + 1, entries@.len() as int));
        if str_eq(entries[i].0.as_str(), key) {
            return Some(&entries[i].1);
        }
        i += 1;
    }
    None
}

/// The feedback for a shell command refused by the active machine's guard in
/// its current state (`None` when the command may run).
pub fn blocked_shell_command_feedback(
    active_playbook: Option<&str>,
    messages: &Vec<Message>,
    command: &str,
    spec: Option<&FsmSpec>,
) -> (r: Option<String>)
    ensures
        r is Some <==> (active_playbook is Some && spec is Some && guard_hit(
            *spec.unwrap(),
            messages@,
            command@,
        ) is Some),
        r matches Some(m) ==> m@ == "COMMAND NOT EXECUTED: blocked by FSM guard in state `"@
            + run_events(*spec.unwrap(), events_of(messages@)) + "` (pattern: `"@ + guard_hit(
            *spec.unwrap(),
            messages@,
            command@,
        ).unwrap() + "`). Choose another approach and continue with one ui_* response."@,
{
    let snapshot = match snapshot_for_playbook(active_playbook, messages, spec) {
        Some(s) => s,
        None => return None,
    };
    let sp = spec.unwrap();
    let ghost state = run_events(*sp, events_of(messages@));
    assert(snapshot.state@ == state);
    let blocked = match lookup_guard(&sp.guards.blocked_commands, snapshot.state.as_str()) {
        Some(b) => b,
        None => match lookup_guard(&sp.guards.blocked_commands, "*") {
            Some(b) => b,
            None => return None,
        },
    };
    assert(guard_patterns(*sp, state) == Some(blocked@));
    let lower = to_lowercase(command);
    let mut i: usize = 0;
    assert(blocked@.subrange(0, blocked@.len() as int) =~= blocked@);
    while i < blocked.len()
        invariant
            i <= blocked@.len(),
            lower@ == unicode_lower(command@),
            state == run_events(*sp, events_of(messages@)),
            snapshot.state@ == state,
            guard_patterns(*sp, state) == Some(blocked@),
            spec == Some(sp),
            active_playbook is Some,
            first_hit(blocked@, lower@) == first_hit(
                blocked@.subrange(i as int, blocked@.len() as int),
                lower@,
            ),
        decreases blocked@.len() - i,
    {
        let ghost rest = blocked@.subrange(i as int, blocked@.len() as int);
        assert(rest[0] == blocked@[i as int]);
        assert(rest.drop_first() =~= blocked@.subrange(i + 1, blocked@.len() as int));
        let p = to_lowercase(blocked[i].as_str());
        if str_contains(lower.as_str(), p.as_str()) {
            assert(first_hit(rest, lower@) == Some(blocked@[i as int]@));
            assert(guard_hit(*sp, messages@, command@) == Some(blocked@[i as int]@));
            let mut m = owned("COMMAND NOT EXECUTED: blocked by FSM guard in state `");
            push_str(&mut m, snapshot.state.as_str());
            push_str(&mut m, "` (pattern: `");
            push_str(&mut m, blocked[i].as_str());
            push_str(
                &mut m,
                "`). Choose another approach and continue with one ui_* response.",
            );
            return Some(m);
        }
        i += 1;
    }
    None
}

// ── Answers of the FSM tools ──

/// `v` is the JSON string `s`.
pub open spec fn str_is(v: Json, s: Seq<char>) -> bool {
    match v {
        Json::Str(t) => t@ == s,
        _ => false,
    }
}

/// The JSON form of a list of strings.
pub open spec fn strings_json_is(v: Json, s: Seq<String>) -> bool {
    &&& v is Array
    &&& v->Array_0@.len() == s.len()
    &&& forall|i: int| 0 <= i < s.len() ==> str_is(#[trigger] v->Array_0@[i], s[i]@)
}

/// The JSON form of a next transition (fields sorted by key).
pub open spec fn next_json_is(v: Json, n: FsmNextTransition) -> bool {
    &&& v is Object
    &&& v->Object_0@.len() == 4
    &&& v->Object_0@[0].0@ == "acceptance"@ && strings_json_is(v->Object_0@[0].1, n.acceptance@)
    &&& v->Object_0@[1].0@ == "goal"@ && str_is(v->Object_0@[1].1, n.goal@)
    &&& v->Object_0@[2].0@ == "to"@ && str_is(v->Object_0@[2].1, n.to@)
    &&& v->Object_0@[3].0@ == "triggers"@ && strings_json_is(v->Object_0@[3].1, n.triggers@)
}

/// The JSON form of a snapshot (fields sorted by key).
pub open spec fn snapshot_json_is(v: Json, snap: FsmSnapshot) -> bool {
    &&& v is Object
    &&& v->Object_0@.len() == 5
    &&& v->Object_0@[0].0@ == "machine"@ && str_is(v->Object_0@[0].1, snap.machine@)
    &&& v->Object_0@[1].0@ == "next"@ && v->Object_0@[1].1 is Array && v->Object_0@[1].1->Array_0@.len()
        == snap.next@.len() && forall|i: int|
        0 <= i < snap.next@.len() ==> next_json_is(
            #[trigger] v->Object_0@[1].1->Array_0@[i],
            snap.next@[i],
        )
    &&& v->Object_0@[2].0@ == "state"@ && str_is(v->Object_0@[2].1, snap.state@)
    &&& v->Object_0@[3].0@ == "state_summary"@ && str_is(v->Object_0@[3].1, snap.state_summary@)
    &&& v->Object_0@[4].0@ == "terminal"@ && v->Object_0@[4].1 == Json::Bool(snap.terminal)
}

fn strings_json(v: &Vec<String>) -> (r: Json)
    ensures
        strings_json_is(r, v@),
{
    let mut items: Vec<Json> = Vec::new();
    let mut i: usize = 0;
    while i < v.len()
        invariant
            i <= v@.len(),
            items@.len() == i,
            forall|k: int| 0 <= k < i ==> str_is(#[trigger] items@[k], v@[k]@),
        decreases v@.len() - i,
    {
        items.push(Json::Str(v[i].clone()));
        i += 1;
    }
    Json::Array(items)
}

/// The JSON form of a snapshot (see `snapshot_json_is`).
pub fn snapshot_json(snap: &FsmSnapshot) -> (r: Json)
    ensures
        snapshot_json_is(r, *snap),
{
    let mut next: Vec<Json> = Vec::new();
    let mut i: usize = 0;
    while i < snap.next.len()
        invariant
            i <= snap.next@.len(),
            next@.len() == i,
            forall|k: int| 0 <= k < i ==> next_json_is(#[trigger] next@[k], snap.next@[k]),
        decreases snap.next@.len() - i,
    {
        let n = &snap.next[i];
        next.push(
            Json::Object(
                vec![
                    (owned("acceptance"), strings_json(&n.acceptance)),
                    (owned("goal"), Json::Str(n.goal.clone())),
                    (owned("to"), Json::Str(n.to.clone())),
                    (owned("triggers"), strings_json(&n.triggers)),
                ],
            ),
        );
        i += 1;
    }
    Json::Object(
        vec![
            (owned("machine"), Json::Str(snap.machine.clone())),
            (owned("next"), Json::Array(next)),
            (owned("state"), Json::Str(snap.state.clone())),
            (owned("state_summary"), Json::Str(snap.state_summary.clone())),
            (owned("terminal"), Json::Bool(snap.terminal)),
        ],
    )
}

/// The tools whose answer the runtime gives.
pub open spec fn is_fsm_tool(name: Seq<char>) -> bool {
    name == "fsm_get_state"@ || name == "fsm_emit_event"@ || name == "fsm_next"@
}

/// The runtime's answer to an FSM tool call: the JSON text of the snapshot
/// (`None` for other tools, or when there is no active machine).
pub fn fsm_tool_response(
    tool_name: &str,
    active_playbook: Option<&str>,
    messages: &Vec<Message>,
    input: &Json,
    spec: Option<&FsmSpec>,
) -> (r: Option<String>)
    ensures
        r is Some <==> (is_fsm_tool(tool_name@) && active_playbook is Some && spec is Some),
        r matches Some(t) ==> exists|snap: FsmSnapshot, v: Json|
            snapshot_is(snap, active_playbook.unwrap()@, messages@, *spec.unwrap())
                && snapshot_json_is(v, snap) && t@ == json_text(v),
{
    if !(str_eq(tool_name, "fsm_get_state") || str_eq(tool_name, "fsm_emit_event") || str_eq(
        tool_name,
        "fsm_next",
    )) {
        return None;
    }
    let snapshot = match snapshot_for_playbook(active_playbook, messages, spec) {
        Some(s) => s,
        None => return None,
    };
    let v = snapshot_json(&snapshot);
    Some(json_to_string(&v))
}

} // verus!
