//! The decisions of one turn of the agent loop: what a model response asks
//! for, how a broken UI protocol is answered, and the results handed back to
//! the model. The loop itself (requests, tool runs, approvals) is driven by
//! the application.
use vstd::prelude::*;

use crate::json::{json_text, json_to_string, Json};
use crate::llm::{is_context_limit_error, spec_is_context_limit_error, ContentBlock, ResponseBlock};
use crate::text::{joined, owned, push_str, starts_with, str_eq, str_starts_with};

verus! {

/// What a response asks of the loop.
#[derive(Debug, Clone, Copy, PartialEq, Eq)]
pub enum TurnPlan {
    /// No tool calls: the turn ends with the text gathered so far.
    Finish,
    /// UI calls mixed with other calls, or several UI calls: every call is
    /// answered with the policy guard.
    UiPolicyViolation,
    /// Exactly one call, a UI call: its position among the blocks.
    SingleUi(usize),
    /// Tool calls and no UI call: they run.
    RunTools,
}

/// The tools by which the model gives its final, structured answer.
pub open spec fn is_ui_tool(name: Seq<char>) -> bool {
    name == "ui_spa"@ || name == "ui_user_question"@ || name == "ui_info"@ || name == "ui_done"@
}

/// Whether a tool is one of the UI tools.
pub fn is_ui_tool_name(name: &str) -> (b: bool)
    ensures
        b == is_ui_tool(name@),
{
    str_eq(name, "ui_spa") || str_eq(name, "ui_user_question") || str_eq(name, "ui_info")
        || str_eq(name, "ui_done")
}

/// The block is a tool call.
pub open spec fn is_call(b: ResponseBlock) -> bool {
    b is ToolUse
}

/// The block is a call of a UI tool.
pub open spec fn is_ui_call(b: ResponseBlock) -> bool {
    match b {
        ResponseBlock::ToolUse { name, .. } => is_ui_tool(name@),
        _ => false,
    }
}

/// The number of blocks that satisfy `p`, among the first `n`.
pub open spec fn count_calls(bs: Seq<ResponseBlock>, ui: bool) -> nat
    decreases bs.len(),
{
    if bs.len() == 0 {
        0
    } else {
        count_calls(bs.drop_last(), ui) + if (if ui {
            is_ui_call(bs.last())
        } else {
            is_call(bs.last())
        }) {
            1nat
        } else {
            0nat
        }
    }
}

/// What a response asks for: to finish without calls; the guard when UI
/// calls are mixed or several; the single UI call; else to run the calls.
pub open spec fn spec_plan(bs: Seq<ResponseBlock>) -> TurnPlan {
    let calls = count_calls(bs, false);
    let ui = count_calls(bs, true);
    if calls == 0 {
        TurnPlan::Finish
    } else if ui == 0 {
        TurnPlan::RunTools
    } else if ui != calls || ui != 1 {
        TurnPlan::UiPolicyViolation
    } else {
        TurnPlan::SingleUi(0)
    }
}

proof fn lemma_ui_le_calls(bs: Seq<ResponseBlock>)
    ensures
        count_calls(bs, true) <= count_calls(bs, false),
    decreases bs.len(),
{
    if bs.len() > 0 {
        lemma_ui_le_calls(bs.drop_last());
    }
}

/// Decide what a response asks for (see `spec_plan`); for a single UI call,
/// its position.
pub fn plan_turn(blocks: &Vec<ResponseBlock>) -> (r: TurnPlan)
    ensures
        (r is SingleUi) <==> (spec_plan(blocks@) is SingleUi),
        !(r is SingleUi) ==> r == spec_plan(blocks@),
        r matches TurnPlan::SingleUi(k) ==> k < blocks@.len() && is_ui_call(blocks@[k as int]),
{
    let mut calls: usize = 0;
    let mut ui: usize = 0;
    let mut last_ui: usize = 0;
    let mut i: usize = 0;
    while i < blocks.len()
        invariant
            i <= blocks@.len(),
            calls == count_calls(blocks@.subrange(0, i as int), false),
            ui == count_calls(blocks@.subrange(0, i as int), true),
            ui <= calls <= i,
            ui > 0 ==> last_ui < i && is_ui_call(blocks@[last_ui as int]),
        decreases blocks@.len() - i,
    {
        let ghost pre = blocks@.subrange(0, i + 1);
        assert(pre.drop_last() =~= blocks@.subrange(0, i as int));
        match &blocks[i] {
            ResponseBlock::ToolUse { name, .. } => {
                calls = calls + 1;
                if is_ui_tool_name(name.as_str()) {
                    ui = ui + 1;
                    last_ui = i;
                }
            },
            _ => {},
        }
        i += 1;
    }
    assert(blocks@.subrange(0, blocks@.len() as int) =~= blocks@);
    if calls == 0 {
        TurnPlan::Finish
    } else if ui == 0 {
        TurnPlan::RunTools
    } else if ui != calls || ui != 1 {
        TurnPlan::UiPolicyViolation
    } else {
        TurnPlan::SingleUi(last_ui)
    }
}

/// The text blocks of a response, in order.
pub open spec fn response_texts(bs: Seq<ResponseBlock>) -> Seq<Seq<char>>
    decreases bs.len(),
{
    if bs.len() == 0 {
        Seq::empty()
    } else {
        let rest = response_texts(bs.drop_last());
        match bs.last() {
            ResponseBlock::Text { text } => rest.push(text@),
            _ => rest,
        }
    }
}

/// Append the texts of a response to the texts gathered during the turn.
pub fn gather_texts(all_text: &mut Vec<String>, blocks: &Vec<ResponseBlock>)
    ensures
        final(all_text)@.map_values(|s: String| s@) == old(all_text)@.map_values(|s: String| s@)
            + response_texts(blocks@),
{
    let ghost start = all_text@.map_values(|s: String| s@);
    let mut i: usize = 0;
    while i < blocks.len()
        invariant
            i <= blocks@.len(),
            all_text@.map_values(|s: String| s@) == start + response_texts(
                blocks@.subrange(0, i as int),
            ),
        decreases blocks@.len() - i,
    {
        let ghost pre = blocks@.subrange(0, i + 1);
        assert(pre.drop_last() =~= blocks@.subrange(0, i as int));
        let ghost before = all_text@.map_values(|s: String| s@);
        match &blocks[i] {
            ResponseBlock::Text { text } => {
                all_text.push(text.clone());
                assert(all_text@.map_values(|s: String| s@) =~= before.push(text@));
            },
            _ => {},
        }
        i += 1;
    }
    assert(blocks@.subrange(0, blocks@.len() as int) =~= blocks@);
}

/// The text that ends a turn: the gathered texts, one per line.
pub fn final_text(all_text: &Vec<String>) -> (r: String)
    ensures
        r@ == joined(all_text@.map_values(|s: String| s@), "\n"@),
{
    crate::text::join_strings(all_text, "\n")
}

/// The text that ends a cancelled turn: the gathered texts and the notice,
/// one per line.
pub fn stopped_text(all_text: &mut Vec<String>) -> (r: String)
    ensures
        final(all_text)@.map_values(|s: String| s@) == old(all_text)@.map_values(|s: String| s@).push(
            "[INFO] Stopped by user."@,
        ),
        r@ == joined(final(all_text)@.map_values(|s: String| s@), "\n"@),
{
    let ghost before = all_text@.map_values(|s: String| s@);
    all_text.push(owned("[INFO] Stopped by user."));
    assert(all_text@.map_values(|s: String| s@) =~= before.push("[INFO] Stopped by user."@));
    crate::text::join_strings(all_text, "\n")
}

/// The assistant's message blocks for a response: each text and call as it came.
pub fn assistant_blocks(blocks: Vec<ResponseBlock>) -> (r: Vec<ContentBlock>)
    ensures
        r@.len() == blocks@.len(),
        forall|i: int|
            0 <= i < blocks@.len() ==> match (blocks@[i], #[trigger] r@[i]) {
                (ResponseBlock::Text { text: a }, ContentBlock::Text { text: b }) => a == b,
                (
                    ResponseBlock::ToolUse { id: a, name: n, input: x },
                    ContentBlock::ToolUse { id: b, name: m, input: y },
                ) => a == b && n == m && x == y,
                _ => false,
            },
{
    let mut blocks = blocks;
    let ghost orig = blocks@;
    let mut out: Vec<ContentBlock> = Vec::new();
    let mut rev: Vec<ContentBlock> = Vec::new();
    while blocks.len() > 0
        invariant
            blocks@ == orig.subrange(0, blocks@.len() as int),
            rev@.len() + blocks@.len() == orig.len(),
            forall|k: int|
                0 <= k < rev@.len() ==> match (orig[orig.len() - 1 - k], #[trigger] rev@[k]) {
                    (ResponseBlock::Text { text: a }, ContentBlock::Text { text: b }) => a == b,
                    (
                        ResponseBlock::ToolUse { id: a, name: n, input: x },
                        ContentBlock::ToolUse { id: b, name: m, input: y },
                    ) => a == b && n == m && x == y,
                    _ => false,
                },
        decreases blocks@.len(),
    {
        let b = blocks.pop().unwrap();
        let c = match b {
            ResponseBlock::Text { text } => ContentBlock::Text { text },
            ResponseBlock::ToolUse { id, name, input } => ContentBlock::ToolUse { id, name, input },
        };
        rev.push(c);
        assert(blocks@ =~= orig.subrange(0, blocks@.len() as int));
    }
    while rev.len() > 0
        invariant
            rev@.len() + out@.len() == orig.len(),
            forall|k: int|
                0 <= k < rev@.len() ==> match (orig[orig.len() - 1 - k], #[trigger] rev@[k]) {
                    (ResponseBlock::Text { text: a }, ContentBlock::Text { text: b }) => a == b,
                    (
                        ResponseBlock::ToolUse { id: a, name: n, input: x },
                        ContentBlock::ToolUse { id: b, name: m, input: y },
                    ) => a == b && n == m && x == y,
                    _ => false,
                },
            forall|k: int|
                0 <= k < out@.len() ==> match (orig[k], #[trigger] out@[k]) {
                    (ResponseBlock::Text { text: a }, ContentBlock::Text { text: b }) => a == b,
                    (
                        ResponseBlock::ToolUse { id: a, name: n, input: x },
                        ContentBlock::ToolUse { id: b, name: m, input: y },
                    ) => a == b && n == m && x == y,
                    _ => false,
                },
        decreases rev@.len(),
    {
        let ghost k = out@.len() as int;
        let ghost last = rev@.len() - 1;
        assert(orig.len() - 1 - last == k);
        let c = rev.pop().unwrap();
        out.push(c);
    }
    out
}

/// The message that answers each call of a turn that broke the UI protocol.
pub open spec fn ui_guard_message() -> Seq<char> {
    "Policy guard: do not mix ui_* tools with other tools or multiple ui_* tools in one turn. Use exactly one ui_* tool call as the final response step."@
}

/// The ids of the calls of a response, in order.
pub open spec fn call_ids(bs: Seq<ResponseBlock>) -> Seq<Seq<char>>
    decreases bs.len(),
{
    if bs.len() == 0 {
        Seq::empty()
    } else {
        let rest = call_ids(bs.drop_last());
        match bs.last() {
            ResponseBlock::ToolUse { id, .. } => rest.push(id@),
            _ => rest,
        }
    }
}

/// A failed tool result for call `id` with `content`.
pub open spec fn error_result_is(b: ContentBlock, id: Seq<char>, content: Seq<char>) -> bool {
    match b {
        ContentBlock::ToolResult { tool_use_id, content: c, is_error } => tool_use_id@ == id
            && c@ == content && is_error == Some(true),
        _ => false,
    }
}

/// A successful tool result for call `id` with `content`.
pub open spec fn ok_result_is(b: ContentBlock, id: Seq<char>, content: Seq<char>) -> bool {
    match b {
        ContentBlock::ToolResult { tool_use_id, content: c, is_error } => tool_use_id@ == id
            && c@ == content && is_error is None,
        _ => false,
    }
}

/// The answers to every call of a turn that broke the UI protocol: the guard
/// message, as an error, for each call in order.
pub fn ui_guard_results(blocks: &Vec<ResponseBlock>) -> (r: Vec<ContentBlock>)
    ensures
        r@.len() == call_ids(blocks@).len(),
        forall|i: int|
            0 <= i < r@.len() ==> error_result_is(
                #[trigger] r@[i],
                call_ids(blocks@)[i],
                ui_guard_message(),
            ),
{
    let mut out: Vec<ContentBlock> = Vec::new();
    let mut i: usize = 0;
    while i < blocks.len()
        invariant
            i <= blocks@.len(),
            out@.len() == call_ids(blocks@.subrange(0, i as int)).len(),
            forall|k: int|
                0 <= k < out@.len() ==> error_result_is(
                    #[trigger] out@[k],
                    call_ids(blocks@.subrange(0, i as int))[k],
                    ui_guard_message(),
                ),
        decreases blocks@.len() - i,
    {
        let ghost pre = blocks@.subrange(0, i + 1);
        assert(pre.drop_last() =~= blocks@.subrange(0, i as int));
        match &blocks[i] {
            ResponseBlock::ToolUse { id, .. } => {
                out.push(
                    ContentBlock::ToolResult {
                        tool_use_id: id.clone(),
                        content: owned(
                            "Policy guard: do not mix ui_* tools with other tools or multiple ui_* tools in one turn. Use exactly one ui_* tool call as the final response step.",
                        ),
                        is_error: Some(true),
                    },
                );
            },
            _ => {},
        }
        i += 1;
    }
    assert(blocks@.subrange(0, blocks@.len() as int) =~= blocks@);
    out
}

/// How many protocol errors a turn tolerates before it gives up.
pub const MAX_UI_PROTOCOL_RETRIES: usize = 3;

/// The answer given when the protocol keeps breaking: an `info` UI payload
/// whose summary names the reason.
pub open spec fn protocol_fallback_is(v: Json, reason: Seq<char>) -> bool {
    &&& v is Object
    &&& v->Object_0@.len() == 2
    &&& v->Object_0@[0].0@ == "kind"@
    &&& v->Object_0@[0].1 matches Json::Str(k) && k@ == "info"@
    &&& v->Object_0@[1].0@ == "summary"@
    &&& v->Object_0@[1].1 matches Json::Str(s) && s@ == "I hit an internal response-format issue ("@
        + reason + "). Please try again."@
}

/// Count a UI protocol error: the new count, and at the third the JSON text
/// of the fallback answer that ends the turn.
pub fn ui_protocol_error(retries: usize, reason: &str) -> (r: (usize, Option<String>))
    requires
        retries < MAX_UI_PROTOCOL_RETRIES,
    ensures
        r.0 == retries + 1,
        r.1 is Some <==> r.0 >= MAX_UI_PROTOCOL_RETRIES,
        r.1 matches Some(t) ==> exists|v: Json| protocol_fallback_is(v, reason@) && t@ == json_text(v),
{
    let n = retries + 1;
    if n >= MAX_UI_PROTOCOL_RETRIES {
        let mut summary = owned("I hit an internal response-format issue (");
        push_str(&mut summary, reason);
        push_str(&mut summary, "). Please try again.");
        let v = Json::Object(
            vec![(owned("kind"), Json::Str(owned("info"))), (owned("summary"), Json::Str(summary))],
        );
        let t = json_to_string(&v);
        (n, Some(t))
    } else {
        (n, None)
    }
}

/// The answer to a UI call whose payload was refused.
pub fn invalid_payload_result(tool_use_id: String, error: &str) -> (r: ContentBlock)
    ensures
        error_result_is(
            r,
            tool_use_id@,
            "Policy guard: invalid ui_* payload: "@ + error@
                + ". Re-emit one valid ui_* tool call matching schema."@,
        ),
{
    let mut content = owned("Policy guard: invalid ui_* payload: ");
    push_str(&mut content, error);
    push_str(&mut content, ". Re-emit one valid ui_* tool call matching schema.");
    ContentBlock::ToolResult { tool_use_id, content, is_error: Some(true) }
}

/// The result handed back for a call: its output, or `Error: ` and the error.
pub fn tool_result_block(tool_use_id: String, result: Result<String, String>) -> (r: ContentBlock)
    ensures
        result matches Ok(out) ==> ok_result_is(r, tool_use_id@, out@),
        result matches Err(e) ==> error_result_is(r, tool_use_id@, "Error: "@ + e@),
{
    match result {
        Ok(out) => ContentBlock::ToolResult { tool_use_id, content: out, is_error: None },
        Err(e) => {
            let mut content = owned("Error: ");
            push_str(&mut content, e.as_str());
            ContentBlock::ToolResult { tool_use_id, content, is_error: Some(true) }
        },
    }
}

/// The result of a call skipped because the user cancelled.
pub fn cancelled_result(tool_use_id: String) -> (r: ContentBlock)
    ensures
        error_result_is(r, tool_use_id@, "Cancelled by user."@),
{
    ContentBlock::ToolResult {
        tool_use_id,
        content: owned("Cancelled by user."),
        is_error: Some(true),
    }
}

/// The output of a call the user refused to approve.
pub fn denied_output() -> (r: String)
    ensures
        r@ == "Action denied by user."@,
{
    owned("Action denied by user.")
}

/// A request failure that calls for compressing the history and trying again.
pub open spec fn spec_is_context_failure(error: Seq<char>) -> bool {
    starts_with(error, "Context limit exceeded:"@) || spec_is_context_limit_error(400, error)
}

/// Whether a failed request failed because the conversation is too long.
pub fn is_context_failure(error: &str) -> (b: bool)
    ensures
        b == spec_is_context_failure(error@),
{
    str_starts_with(error, "Context limit exceeded:") || is_context_limit_error(400, error)
}

// ── The turn loop's step ───────────────────────────────────────────────

/// Where a turn stands: the texts gathered so far, and the UI protocol
/// errors counted.
#[derive(Debug)]
pub struct TurnState {
    pub all_text: Vec<String>,
    pub retries: usize,
}

/// What the loop does with a response.
#[derive(Debug)]
pub enum TurnAction {
    /// End the turn with this answer.
    Reply(String),
    /// Record these results as the user's message, then end the turn with the answer.
    ReplyAfter(Vec<ContentBlock>, String),
    /// Record these results as the user's message and ask the model again.
    AskAgain(Vec<ContentBlock>),
    /// Run the response's tool calls, record their results, and ask the model again.
    RunTools,
}

/// The texts of a list of strings.
pub open spec fn texts(v: Seq<String>) -> Seq<Seq<char>> {
    v.map_values(|s: String| s@)
}

/// The id of a tool call.
pub open spec fn call_id(b: ResponseBlock) -> Seq<char> {
    match b {
        ResponseBlock::ToolUse { id, .. } => id@,
        _ => Seq::empty(),
    }
}

/// The turn ends with `text`.
pub open spec fn reply_is(r: TurnAction, text: Seq<char>) -> bool {
    r matches TurnAction::Reply(s) && s@ == text
}

/// The turn ends with a UI payload: the call `id` is answered with it, and
/// it is the answer.
pub open spec fn payload_reply_is(r: TurnAction, id: Seq<char>, payload: Seq<char>) -> bool {
    r matches TurnAction::ReplyAfter(rs, a) && a@ == payload && rs@.len() == 1 && ok_result_is(
        rs@[0],
        id,
        payload,
    )
}

/// The action that follows a protocol error with `reason`, given the
/// results to record and the count of errors after it.
pub open spec fn protocol_action_is(r: TurnAction, results: Seq<ContentBlock>, count: usize, reason: Seq<char>) -> bool {
    if count >= MAX_UI_PROTOCOL_RETRIES {
        r matches TurnAction::ReplyAfter(rs, f) && rs@ == results && exists|v: Json|
            protocol_fallback_is(v, reason) && f@ == json_text(v)
    } else {
        r matches TurnAction::AskAgain(rs) && rs@ == results
    }
}

/// One step of the turn: the response's texts join those gathered, and the
/// response's plan decides (see `spec_plan`): no call ends the turn with the
/// gathered texts, one per line; a broken UI protocol answers every call
/// with the guard and counts an error; a single UI call ends the turn with
/// its payload (`ui_check`, what the UI tool made of the call) or, when the
/// payload was refused, is answered with the refusal and counts an error;
/// other calls run. At the third error the turn ends with the fallback answer.
pub fn turn_step(
    state: &mut TurnState,
    blocks: &Vec<ResponseBlock>,
    ui_check: Option<Result<String, String>>,
) -> (r: TurnAction)
    requires
        old(state).retries < MAX_UI_PROTOCOL_RETRIES,
        spec_plan(blocks@) is SingleUi ==> ui_check is Some,
    ensures
        texts(final(state).all_text@) == texts(old(state).all_text@) + response_texts(blocks@),
        spec_plan(blocks@) == TurnPlan::Finish ==> final(state).retries == old(state).retries
            && reply_is(r, joined(texts(final(state).all_text@), "\n"@)),
        spec_plan(blocks@) == TurnPlan::RunTools ==> final(state).retries == old(state).retries
            && r is RunTools,
        spec_plan(blocks@) == TurnPlan::UiPolicyViolation ==> final(state).retries == old(
            state,
        ).retries + 1 && exists|rs: Seq<ContentBlock>|
            {
                &&& rs.len() == call_ids(blocks@).len()
                &&& forall|i: int|
                    0 <= i < rs.len() ==> error_result_is(
                        #[trigger] rs[i],
                        call_ids(blocks@)[i],
                        ui_guard_message(),
                    )
                &&& protocol_action_is(
                    r,
                    rs,
                    final(state).retries,
                    "mixed/multiple ui_* calls"@,
                )
            },
        spec_plan(blocks@) is SingleUi ==> exists|k: int|
            0 <= k < blocks@.len() && is_ui_call(blocks@[k]) && match ui_check {
                Some(Ok(p)) => final(state).retries == old(state).retries && payload_reply_is(
                    r,
                    call_id(blocks@[k]),
                    p@,
                ),
                Some(Err(e)) => final(state).retries == old(state).retries + 1 && exists|
                    b: ContentBlock,
                |
                    error_result_is(
                        b,
                        call_id(blocks@[k]),
                        "Policy guard: invalid ui_* payload: "@ + e@
                            + ". Re-emit one valid ui_* tool call matching schema."@,
                    ) && protocol_action_is(
                        r,
                        seq![b],
                        final(state).retries,
                        "invalid ui_* payload: "@ + e@,
                    ),
                None => false,
            },
{
    gather_texts(&mut state.all_text, blocks);
    let plan = plan_turn(blocks);
    match plan {
        TurnPlan::Finish => {
            assert(spec_plan(blocks@) == TurnPlan::Finish);
            TurnAction::Reply(final_text(&state.all_text))
        },
        TurnPlan::RunTools => {
            assert(spec_plan(blocks@) == TurnPlan::RunTools);
            TurnAction::RunTools
        },
        TurnPlan::UiPolicyViolation => {
            let results = ui_guard_results(blocks);
            let ghost rs = results@;
            let (n, fallback) = ui_protocol_error(state.retries, "mixed/multiple ui_* calls");
            state.retries = n;
            let r = match fallback {
                Some(f) => TurnAction::ReplyAfter(results, f),
                None => TurnAction::AskAgain(results),
            };
            assert(protocol_action_is(r, rs, state.retries, "mixed/multiple ui_* calls"@));
            r
        },
        TurnPlan::SingleUi(k) => {
            let id = match &blocks[k] {
                ResponseBlock::ToolUse { id, .. } => id.clone(),
                ResponseBlock::Text { .. } => String::new(),
            };
            assert(id@ == call_id(blocks@[k as int]));
            let ghost kk = k as int;
            let ghost uc = ui_check;
            let ghost before = state.retries;
            let r = match ui_check {
                Some(Ok(p)) => {
                    let answer = p.clone();
                    let ghost pv = p@;
                    let r = TurnAction::ReplyAfter(vec![tool_result_block(id, Ok(p))], answer);
                    assert(payload_reply_is(r, call_id(blocks@[k as int]), pv));
                    r
                },
                Some(Err(e)) => {
                    let refusal = invalid_payload_result(id, e.as_str());
                    let mut reason = owned("invalid ui_* payload: ");
                    push_str(&mut reason, e.as_str());
                    let (n, fallback) = ui_protocol_error(state.retries, reason.as_str());
                    state.retries = n;
                    let ghost b = refusal;
                    assert(error_result_is(
                        b,
                        call_id(blocks@[kk]),
                        "Policy guard: invalid ui_* payload: "@ + e@
                            + ". Re-emit one valid ui_* tool call matching schema."@,
                    ));
                    let results = vec![refusal];
                    assert(results@ =~= seq![b]);
                    let r = match fallback {
                        Some(f) => TurnAction::ReplyAfter(results, f),
                        None => TurnAction::AskAgain(results),
                    };
                    assert(protocol_action_is(r, seq![b], state.retries, reason@));
                    r
                },
                None => TurnAction::RunTools,
            };
            assert(0 <= kk < blocks@.len() && is_ui_call(blocks@[kk]));
            r
        },
    }
}

/// The answer of a turn the user cancelled: the texts gathered and the
/// notice, one per line.
pub fn cancelled_turn(state: &mut TurnState) -> (r: String)
    ensures
        texts(final(state).all_text@) == texts(old(state).all_text@).push("[INFO] Stopped by user."@),
        r@ == joined(texts(final(state).all_text@), "\n"@),
        final(state).retries == old(state).retries,
{
    stopped_text(&mut state.all_text)
}

} // verus!
