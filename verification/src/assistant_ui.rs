//! The structured UI payloads of an assistant reply, and the parser that
//! recognises them in the reply text (JSON first, then the legacy markers).
use vstd::prelude::*;

use crate::json::{
    parse_json, parsed_json, spec_as_array, spec_as_bool, spec_as_str, spec_as_u64, spec_get,
    str_field, Json,
};
use crate::text::{
    after_first, chars_of, find, find_exec, occurs_at, owned, rfind_char, rfind_char_exec,
    starts_with, str_contains, string_of, lower_case, upper_case, trim, trim_bounds,
    case_fold, case_fold_upper, contains, lemma_find_iff_contains,
};

verus! {

// ── Types ──

/// What the card's action button does.
#[derive(Debug, Clone, Copy, PartialEq, Eq, Structural)]
pub enum AssistantActionType {
    RunStep,
    WaitForUser,
}

/// One choice of a question.
#[derive(Debug, Clone)]
pub struct AssistantQuestionOption {
    pub label: String,
    pub description: String,
}

/// A free-text answer field.
#[derive(Debug, Clone)]
pub struct AssistantTextInput {
    pub placeholder: Option<String>,
    pub default: Option<String>,
}

/// A secret answer field; the value is stored under `secret_name`.
#[derive(Debug, Clone)]
pub struct AssistantSecureInput {
    pub placeholder: Option<String>,
    pub secret_name: String,
}

/// One question put to the user.
#[derive(Debug, Clone)]
pub struct AssistantQuestion {
    pub question: String,
    pub header: String,
    pub options: Option<Vec<AssistantQuestionOption>>,
    pub text_input: Option<AssistantTextInput>,
    pub secure_input: Option<AssistantSecureInput>,
    pub multi_select: Option<bool>,
}

/// The action button of a situation/plan/action card.
#[derive(Debug, Clone)]
pub struct AssistantCardAction {
    pub label: String,
    pub action_type: AssistantActionType,
}

/// Progress through an active playbook.
#[derive(Debug, Clone)]
pub struct PlaybookProgress {
    pub step: u32,
    pub total: u32,
    pub label: String,
}

/// Structured diagnostic fact rendered as a label/value tile.
#[derive(Debug, Clone)]
pub struct AssistantFinding {
    pub label: String,
    pub value: String,
    pub tone: Option<String>,
    pub sub: Option<String>,
}

/// One ordered remediation step.
#[derive(Debug, Clone)]
pub struct AssistantStep {
    pub label: String,
    pub status: Option<String>,
    pub detail: Option<String>,
}

/// A situation/plan/action card.
#[derive(Debug, Clone)]
pub struct AssistantSpaUi {
    pub kind: String,
    pub situation: String,
    pub findings: Option<Vec<AssistantFinding>>,
    pub steps: Option<Vec<AssistantStep>>,
    pub plan: Option<String>,
    pub action: AssistantCardAction,
    pub progress: Option<PlaybookProgress>,
    pub qr_data: Option<String>,
}

/// A set of questions for the user.
#[derive(Debug, Clone)]
pub struct AssistantUserQuestionUi {
    pub kind: String,
    pub questions: Vec<AssistantQuestion>,
    pub progress: Option<PlaybookProgress>,
}

/// A summary, either final (`done`) or informational (`info`).
#[derive(Debug, Clone)]
pub struct AssistantInfoUi {
    pub kind: String,
    pub summary: String,
    pub progress: Option<PlaybookProgress>,
}

/// The UI payload recognised in an assistant reply.
#[derive(Debug, Clone)]
pub enum AssistantUiPayload {
    Spa(AssistantSpaUi),
    UserQuestion(AssistantUserQuestionUi),
    Done(AssistantInfoUi),
    Info(AssistantInfoUi),
}

/// The reply text together with the payload recognised in it.
#[derive(Debug, Clone)]
pub struct SendMessageV2Result {
    pub text: String,
    pub assistant_ui: Option<AssistantUiPayload>,
}

/// A user action that answers the assistant without typing.
#[derive(Debug, Clone, Copy, PartialEq, Eq, Structural)]
pub enum UserEventType {
    UserConfirm,
    UserSkipOptional,
    UserAnswerQuestion,
}

// ── Specification helpers ──

/// An optional string holds exactly the given optional text.
pub open spec fn opt_str_is(o: Option<String>, s: Option<Seq<char>>) -> bool {
    match (o, s) {
        (None, None) => true,
        (Some(a), Some(b)) => a@ == b,
        _ => false,
    }
}

/// `value[key]` may fill an `Option<String>` field: absent, `null`, or a string.
pub open spec fn opt_string_field_ok(value: Json, key: Seq<char>) -> bool {
    match spec_get(value, key) {
        None => true,
        Some(Json::Null) => true,
        Some(Json::Str(_)) => true,
        _ => false,
    }
}

/// An element of a positional (array) form fills an `Option<String>`: `null` or a string.
pub open spec fn opt_string_elem_ok(item: Json) -> bool {
    match item {
        Json::Null => true,
        Json::Str(_) => true,
        _ => false,
    }
}

/// A finding can be read from a JSON value: an object with string `label` and
/// `value` and optional string `tone` and `sub`, or an array of exactly those four.
pub open spec fn finding_ok(item: Json) -> bool {
    match item {
        Json::Object(_) => {
            &&& str_field(item, "label"@) is Some
            &&& str_field(item, "value"@) is Some
            &&& opt_string_field_ok(item, "tone"@)
            &&& opt_string_field_ok(item, "sub"@)
        },
        Json::Array(a) => {
            &&& a@.len() == 4
            &&& spec_as_str(a@[0]) is Some
            &&& spec_as_str(a@[1]) is Some
            &&& opt_string_elem_ok(a@[2])
            &&& opt_string_elem_ok(a@[3])
        },
        _ => false,
    }
}

/// The finding holds what the JSON value says.
pub open spec fn finding_is(f: AssistantFinding, item: Json) -> bool {
    match item {
        Json::Object(_) => {
            &&& Some(f.label@) == str_field(item, "label"@)
            &&& Some(f.value@) == str_field(item, "value"@)
            &&& opt_str_is(f.tone, str_field(item, "tone"@))
            &&& opt_str_is(f.sub, str_field(item, "sub"@))
        },
        Json::Array(a) => {
            &&& Some(f.label@) == spec_as_str(a@[0])
            &&& Some(f.value@) == spec_as_str(a@[1])
            &&& opt_str_is(f.tone, spec_as_str(a@[2]))
            &&& opt_str_is(f.sub, spec_as_str(a@[3]))
        },
        _ => false,
    }
}

/// A step can be read from a JSON value: an object with a string `label` and
/// optional string `status` and `detail`, or an array of exactly those three.
pub open spec fn step_ok(item: Json) -> bool {
    match item {
        Json::Object(_) => {
            &&& str_field(item, "label"@) is Some
            &&& opt_string_field_ok(item, "status"@)
            &&& opt_string_field_ok(item, "detail"@)
        },
        Json::Array(a) => {
            &&& a@.len() == 3
            &&& spec_as_str(a@[0]) is Some
            &&& opt_string_elem_ok(a@[1])
            &&& opt_string_elem_ok(a@[2])
        },
        _ => false,
    }
}

/// The step holds what the JSON value says.
pub open spec fn step_is(s: AssistantStep, item: Json) -> bool {
    match item {
        Json::Object(_) => {
            &&& Some(s.label@) == str_field(item, "label"@)
            &&& opt_str_is(s.status, str_field(item, "status"@))
            &&& opt_str_is(s.detail, str_field(item, "detail"@))
        },
        Json::Array(a) => {
            &&& Some(s.label@) == spec_as_str(a@[0])
            &&& opt_str_is(s.status, spec_as_str(a@[1]))
            &&& opt_str_is(s.detail, spec_as_str(a@[2]))
        },
        _ => false,
    }
}

/// Every element is a valid finding.
pub open spec fn all_findings_ok(items: Seq<Json>) -> bool {
    forall|i: int| 0 <= i < items.len() ==> finding_ok(#[trigger] items[i])
}

/// `value.findings` as the card keeps it: all findings when the field is an
/// array whose every element is a valid finding, and `None` otherwise.
pub open spec fn findings_is(o: Option<Vec<AssistantFinding>>, value: Json) -> bool {
    match spec_get(value, "findings"@) {
        Some(Json::Array(items)) => if all_findings_ok(items@) {
            o matches Some(fs) && fs@.len() == items@.len() && forall|i: int|
                0 <= i < items@.len() ==> finding_is(#[trigger] fs@[i], items@[i])
        } else {
            o is None
        },
        _ => o is None,
    }
}

/// Every element is a valid step.
pub open spec fn all_steps_ok(items: Seq<Json>) -> bool {
    forall|i: int| 0 <= i < items.len() ==> step_ok(#[trigger] items[i])
}

/// `value.steps` as the card keeps it, in the same way as the findings.
pub open spec fn steps_is(o: Option<Vec<AssistantStep>>, value: Json) -> bool {
    match spec_get(value, "steps"@) {
        Some(Json::Array(items)) => if all_steps_ok(items@) {
            o matches Some(ss) && ss@.len() == items@.len() && forall|i: int|
                0 <= i < items@.len() ==> step_is(#[trigger] ss@[i], items@[i])
        } else {
            o is None
        },
        _ => o is None,
    }
}

/// `value.progress` with numeric `step` and `total` and a string `label`.
pub open spec fn progress_ok(value: Json) -> bool {
    match spec_get(value, "progress"@) {
        Some(p) => {
            &&& (match spec_get(p, "step"@) {
                Some(s) => spec_as_u64(s) is Some,
                None => false,
            })
            &&& (match spec_get(p, "total"@) {
                Some(t) => spec_as_u64(t) is Some,
                None => false,
            })
            &&& str_field(p, "label"@) is Some
        },
        None => false,
    }
}

/// The progress read from `value.progress` (numbers are cut to 32 bits).
pub open spec fn progress_is(o: Option<PlaybookProgress>, value: Json) -> bool {
    if progress_ok(value) {
        let p = spec_get(value, "progress"@).unwrap();
        o matches Some(pr) && pr.step == (spec_as_u64(spec_get(p, "step"@).unwrap()).unwrap() as u32)
            && pr.total == (spec_as_u64(spec_get(p, "total"@).unwrap()).unwrap() as u32)
            && Some(pr.label@) == str_field(p, "label"@)
    } else {
        o is None
    }
}

/// The action type named by `action.type`, upper-cased; `RunStep` otherwise.
pub open spec fn action_type_of(action: Json) -> AssistantActionType {
    match str_field(action, "type"@) {
        Some(t) => if case_fold_upper(t) == "WAIT_FOR_USER"@ {
            AssistantActionType::WaitForUser
        } else {
            AssistantActionType::RunStep
        },
        None => AssistantActionType::RunStep,
    }
}

/// An option element that carries both a string `label` and `description`.
pub open spec fn option_ok(o: Json) -> bool {
    str_field(o, "label"@) is Some && str_field(o, "description"@) is Some
}

/// The options kept from an options array: the valid ones, in order.
pub open spec fn options_kept(items: Seq<Json>) -> Seq<Json> {
    items.filter(|o: Json| option_ok(o))
}

/// A question element that carries a string `question` and `header`.
pub open spec fn question_ok(q: Json) -> bool {
    str_field(q, "question"@) is Some && str_field(q, "header"@) is Some
}

/// The question elements kept: the valid ones, in order.
pub open spec fn questions_kept(items: Seq<Json>) -> Seq<Json> {
    items.filter(|q: Json| question_ok(q))
}

/// The option holds the label and description of the JSON option.
pub open spec fn option_is(opt: AssistantQuestionOption, o: Json) -> bool {
    Some(opt.label@) == str_field(o, "label"@) && Some(opt.description@) == str_field(
        o,
        "description"@,
    )
}

/// The question holds what the JSON question says.
pub open spec fn question_is(q: AssistantQuestion, j: Json) -> bool {
    &&& Some(q.question@) == str_field(j, "question"@)
    &&& Some(q.header@) == str_field(j, "header"@)
    &&& q.multi_select == (match spec_get(j, "multiSelect"@) {
        Some(m) => spec_as_bool(m),
        None => None,
    })
    &&& (match spec_get(j, "options"@) {
        Some(Json::Array(items)) => q.options matches Some(os) && os@.len() == options_kept(
            items@,
        ).len() && forall|i: int|
            0 <= i < os@.len() ==> option_is(#[trigger] os@[i], options_kept(items@)[i]),
        _ => q.options is None,
    })
    &&& (match spec_get(j, "text_input"@) {
        Some(ti) => q.text_input matches Some(t) && opt_str_is(
            t.placeholder,
            str_field(ti, "placeholder"@),
        ) && opt_str_is(t.default, str_field(ti, "default"@)),
        None => q.text_input is None,
    })
    &&& (match spec_get(j, "secure_input"@) {
        Some(si) => if str_field(si, "secret_name"@) is Some {
            q.secure_input matches Some(s) && opt_str_is(
                s.placeholder,
                str_field(si, "placeholder"@),
            ) && Some(s.secret_name@) == str_field(si, "secret_name"@)
        } else {
            q.secure_input is None
        },
        None => q.secure_input is None,
    })
}

/// The questions read from `value.questions` (empty when it is not an array).
pub open spec fn questions_is(qs: Vec<AssistantQuestion>, value: Json) -> bool {
    match spec_get(value, "questions"@) {
        Some(Json::Array(items)) => qs@.len() == questions_kept(items@).len() && forall|i: int|
            0 <= i < qs@.len() ==> question_is(#[trigger] qs@[i], questions_kept(items@)[i]),
        _ => qs@.len() == 0,
    }
}

/// The JSON candidate cut out of a reply: the body of a ```` ```json ```` fence, the
/// span from the first `{` to the last `}`, or the whole text, trimmed.
/// `None` when a fence is opened but never closed.
pub open spec fn json_candidate(text: Seq<char>) -> Option<Seq<char>> {
    match find(text, "```json"@) {
        Some(start) => {
            let rest = text.subrange(start + "```json"@.len(), text.len() as int);
            match find(rest, "```"@) {
                Some(end) => Some(trim(rest.subrange(0, end))),
                None => None,
            }
        },
        None => match (find(text, "{"@), rfind_char(text, '}')) {
            (Some(s), Some(e)) => Some(trim(text.subrange(s, e + 1))),
            _ => Some(trim(text)),
        },
    }
}

/// Replies on which cutting out the candidate would slice backwards
/// (a `}` only before the first `{`, with text between them): such a
/// slice panics, so these replies are not handed to the parser.
pub open spec fn candidate_slice_invalid(text: Seq<char>) -> bool {
    find(text, "```json"@) is None && match (find(text, "{"@), rfind_char(text, '}')) {
        (Some(s), Some(e)) => s > e + 1,
        _ => false,
    }
}

/// The payload that a parsed JSON value describes, given its `kind`
/// already lower-cased.
pub open spec fn ui_value_is(r: Option<AssistantUiPayload>, v: Json, kind: Seq<char>) -> bool {
        if kind == "done"@ || kind == "info"@ {
            match str_field(v, "summary"@) {
                None => r is None,
                Some(summary) => {
                    let ok = |ui: AssistantInfoUi|
                        ui.kind@ == kind && ui.summary@ == summary && progress_is(
                            ui.progress,
                            v,
                        );
                    if kind == "done"@ {
                        r matches Some(AssistantUiPayload::Done(ui)) && ok(ui)
                    } else {
                        r matches Some(AssistantUiPayload::Info(ui)) && ok(ui)
                    }
                },
            }
        } else if kind == "spa"@ {
            if str_field(v, "situation"@) is None || spec_get(v, "action"@) is None
                || str_field(spec_get(v, "action"@).unwrap(), "label"@) is None {
                r is None
            } else {
                let action = spec_get(v, "action"@).unwrap();
                r matches Some(AssistantUiPayload::Spa(ui)) && ui.kind@ == "spa"@
                    && Some(ui.situation@) == str_field(v, "situation"@)
                    && opt_str_is(ui.plan, str_field(v, "plan"@)) && findings_is(
                    ui.findings,
                    v,
                ) && steps_is(ui.steps, v) && Some(ui.action.label@) == str_field(
                    action,
                    "label"@,
                ) && ui.action.action_type == action_type_of(action)
                    && progress_is(ui.progress, v) && opt_str_is(
                    ui.qr_data,
                    str_field(v, "qr_data"@),
                )
            }
        } else if kind == "user_question"@ {
            r matches Some(AssistantUiPayload::UserQuestion(ui)) && ui.kind@
                == "user_question"@ && questions_is(ui.questions, v)
                && progress_is(ui.progress, v)
        } else {
            r is None
        }
}

/// The payload that the JSON form of a reply describes.
pub open spec fn ui_json_is(r: Option<AssistantUiPayload>, text: Seq<char>) -> bool {
    match json_candidate(text) {
        None => r is None,
        Some(c) => if !starts_with(c, "{"@) {
            r is None
        } else {
            match parsed_json(c) {
                None => r is None,
                Some(v) => match str_field(v, "kind"@) {
                    None => r is None,
                    Some(k) => ui_value_is(r, v, case_fold(k)),
                },
            }
        },
    }
}

/// The trimmed text between the first `start` and the first `end` after it.
pub open spec fn spec_parse_between(s: Seq<char>, start: Seq<char>, end: Seq<char>) -> Option<
    Seq<char>,
> {
    match find(s, start) {
        None => None,
        Some(i) => {
            let rest = s.subrange(i + start.len(), s.len() as int);
            match find(rest, end) {
                None => None,
                Some(j) => Some(trim(rest.subrange(0, j))),
            }
        },
    }
}

/// The payload that the legacy markers of a reply describe.
pub open spec fn ui_markers_is(r: Option<AssistantUiPayload>, text: Seq<char>) -> bool {
    if contains(text, "[DONE]"@) {
        r matches Some(AssistantUiPayload::Done(ui)) && ui.kind@ == "done"@ && ui.summary@ == trim(
            after_first(text, "[DONE]"@).unwrap(),
        ) && ui.progress is None
    } else if contains(text, "[INFO]"@) {
        r matches Some(AssistantUiPayload::Info(ui)) && ui.kind@ == "info"@ && ui.summary@ == trim(
            after_first(text, "[INFO]"@).unwrap(),
        ) && ui.progress is None
    } else {
        match (
            spec_parse_between(text, "[SITUATION]"@, "[PLAN]"@),
            spec_parse_between(text, "[PLAN]"@, "[ACTION:"@),
            spec_parse_between(text, "[ACTION:"@, "]"@),
        ) {
            (Some(situation), Some(plan), Some(label)) => r matches Some(
                AssistantUiPayload::Spa(ui),
            ) && ui.kind@ == "spa"@ && ui.situation@ == situation && ui.findings is None
                && ui.steps is None && opt_str_is(ui.plan, Some(plan)) && ui.action.label@ == label
                && ui.action.action_type == AssistantActionType::RunStep && ui.progress is None
                && ui.qr_data is None,
            _ => r is None,
        }
    }
}

/// Whether the JSON form of a reply yields a payload.
pub open spec fn ui_json_found(text: Seq<char>) -> bool {
    exists|p: AssistantUiPayload| ui_json_is(Some(p), text)
}

// ── Executable parsing ──

fn opt_string(s: Option<&str>) -> (r: Option<String>)
    ensures
        opt_str_is(r, match s {
            Some(t) => Some(t@),
            None => None,
        }),
{
    match s {
        Some(t) => Some(owned(t)),
        None => None,
    }
}

fn parse_between(s: &Vec<char>, start: &str, end: &str) -> (r: Option<String>)
    ensures
        opt_str_is(r, spec_parse_between(s@, start@, end@)),
{
    let sv = chars_of(start);
    let ev = chars_of(end);
    match find_exec(s, &sv) {
        None => None,
        Some(i) => {
            let from = i + sv.len();
            let ghost rest = s@.subrange(from as int, s@.len() as int);
            let rv = vec_slice(s, from);
            assert(rv@ == rest);
            match find_exec(&rv, &ev) {
                None => None,
                Some(j) => {
                    let (lo, hi) = trim_bounds(&rv, 0, j);
                    Some(string_of(&rv, lo, hi))
                },
            }
        },
    }
}

fn vec_slice(v: &Vec<char>, from: usize) -> (r: Vec<char>)
    requires
        from <= v.len(),
    ensures
        r@ == v@.subrange(from as int, v@.len() as int),
{
    let mut r: Vec<char> = Vec::new();
    let mut i = from;
    while i < v.len()
        invariant
            from <= i <= v.len(),
            r@ == v@.subrange(from as int, i as int),
        decreases v.len() - i,
    {
        r.push(v[i]);
        i += 1;
        assert(r@ =~= v@.subrange(from as int, i as int));
    }
    r
}

fn parse_progress(v: &Json) -> (r: Option<PlaybookProgress>)
    ensures
        progress_is(r, *v),
{
    let p = match v.get("progress") {
        Some(p) => p,
        None => return None,
    };
    let step = match p.get("step") {
        Some(s) => match s.as_u64() {
            Some(n) => n,
            None => return None,
        },
        None => return None,
    };
    let total = match p.get("total") {
        Some(t) => match t.as_u64() {
            Some(n) => n,
            None => return None,
        },
        None => return None,
    };
    let label = match p.str_field("label") {
        Some(l) => owned(l),
        None => return None,
    };
    Some(PlaybookProgress {
        step: #[verifier::truncate] (step as u32),
        total: #[verifier::truncate] (total as u32),
        label,
    })
}

fn opt_string_field(v: &Json, key: &str) -> (r: Option<String>)
    ensures
        opt_str_is(r, str_field(*v, key@)),
{
    opt_string(v.str_field(key))
}

fn finding_from(item: &Json) -> (r: Option<AssistantFinding>)
    ensures
        r is Some <==> finding_ok(*item),
        r matches Some(f) ==> finding_is(f, *item),
{
    match item {
        Json::Object(_) => {
            if !opt_field_ok_exec(item, "tone") || !opt_field_ok_exec(item, "sub") {
                return None;
            }
            let label = match item.str_field("label") {
                Some(s) => owned(s),
                None => return None,
            };
            let value = match item.str_field("value") {
                Some(s) => owned(s),
                None => return None,
            };
            Some(
                AssistantFinding {
                    label,
                    value,
                    tone: opt_string_field(item, "tone"),
                    sub: opt_string_field(item, "sub"),
                },
            )
        },
        Json::Array(a) => {
            if a.len() != 4 || !opt_elem_ok_exec(&a[2]) || !opt_elem_ok_exec(&a[3]) {
                return None;
            }
            let label = match a[0].as_str() {
                Some(s) => owned(s),
                None => return None,
            };
            let value = match a[1].as_str() {
                Some(s) => owned(s),
                None => return None,
            };
            Some(
                AssistantFinding {
                    label,
                    value,
                    tone: opt_string(a[2].as_str()),
                    sub: opt_string(a[3].as_str()),
                },
            )
        },
        _ => None,
    }
}

fn step_from(item: &Json) -> (r: Option<AssistantStep>)
    ensures
        r is Some <==> step_ok(*item),
        r matches Some(s) ==> step_is(s, *item),
{
    match item {
        Json::Object(_) => {
            if !opt_field_ok_exec(item, "status") || !opt_field_ok_exec(item, "detail") {
                return None;
            }
            let label = match item.str_field("label") {
                Some(s) => owned(s),
                None => return None,
            };
            Some(
                AssistantStep {
                    label,
                    status: opt_string_field(item, "status"),
                    detail: opt_string_field(item, "detail"),
                },
            )
        },
        Json::Array(a) => {
            if a.len() != 3 || !opt_elem_ok_exec(&a[1]) || !opt_elem_ok_exec(&a[2]) {
                return None;
            }
            let label = match a[0].as_str() {
                Some(s) => owned(s),
                None => return None,
            };
            Some(
                AssistantStep {
                    label,
                    status: opt_string(a[1].as_str()),
                    detail: opt_string(a[2].as_str()),
                },
            )
        },
        _ => None,
    }
}

fn opt_field_ok_exec(v: &Json, key: &str) -> (b: bool)
    ensures
        b == opt_string_field_ok(*v, key@),
{
    match v.get(key) {
        None => true,
        Some(x) => opt_elem_ok_exec(x),
    }
}

fn opt_elem_ok_exec(v: &Json) -> (b: bool)
    ensures
        b == opt_string_elem_ok(*v),
{
    match v {
        Json::Null => true,
        Json::Str(_) => true,
        _ => false,
    }
}

fn parse_findings(v: &Json) -> (r: Option<Vec<AssistantFinding>>)
    ensures
        findings_is(r, *v),
{
    let items = match v.get("findings") {
        Some(Json::Array(items)) => items,
        _ => return None,
    };
    let mut out: Vec<AssistantFinding> = Vec::new();
    let mut i: usize = 0;
    while i < items.len()
        invariant
            i <= items@.len(),
            spec_get(*v, "findings"@) == Some(Json::Array(*items)),
            out@.len() == i,
            forall|k: int| 0 <= k < i ==> finding_ok(#[trigger] items@[k]),
            forall|k: int| 0 <= k < i ==> finding_is(#[trigger] out@[k], items@[k]),
        decreases items@.len() - i,
    {
        match finding_from(&items[i]) {
            Some(f) => out.push(f),
            None => {
                assert(!finding_ok(items@[i as int]));
                assert(!all_findings_ok(items@));
                return None;
            },
        }
        i += 1;
    }
    Some(out)
}

fn parse_steps(v: &Json) -> (r: Option<Vec<AssistantStep>>)
    ensures
        steps_is(r, *v),
{
    let items = match v.get("steps") {
        Some(Json::Array(items)) => items,
        _ => return None,
    };
    let mut out: Vec<AssistantStep> = Vec::new();
    let mut i: usize = 0;
    while i < items.len()
        invariant
            i <= items@.len(),
            spec_get(*v, "steps"@) == Some(Json::Array(*items)),
            out@.len() == i,
            forall|k: int| 0 <= k < i ==> step_ok(#[trigger] items@[k]),
            forall|k: int| 0 <= k < i ==> step_is(#[trigger] out@[k], items@[k]),
        decreases items@.len() - i,
    {
        match step_from(&items[i]) {
            Some(s) => out.push(s),
            None => {
                assert(!step_ok(items@[i as int]));
                assert(!all_steps_ok(items@));
                return None;
            },
        }
        i += 1;
    }
    Some(out)
}

fn action_type_from(action: &Json) -> (t: AssistantActionType)
    ensures
        t == action_type_of(*action),
{
    match action.str_field("type") {
        Some(t) => {
            let up = upper_case(t);
            if crate::text::str_eq(up.as_str(), "WAIT_FOR_USER") {
                AssistantActionType::WaitForUser
            } else {
                AssistantActionType::RunStep
            }
        },
        None => AssistantActionType::RunStep,
    }
}

fn parse_options(items: &Vec<Json>) -> (r: Vec<AssistantQuestionOption>)
    ensures
        r@.len() == options_kept(items@).len(),
        forall|i: int| 0 <= i < r@.len() ==> option_is(#[trigger] r@[i], options_kept(items@)[i]),
{
    let mut out: Vec<AssistantQuestionOption> = Vec::new();
    let mut i: usize = 0;
    while i < items.len()
        invariant
            i <= items@.len(),
            out@.len() == options_kept(items@.subrange(0, i as int)).len(),
            forall|k: int|
                0 <= k < out@.len() ==> option_is(
                    #[trigger] out@[k],
                    options_kept(items@.subrange(0, i as int))[k],
                ),
        decreases items@.len() - i,
    {
        let ghost prev = items@.subrange(0, i as int);
        assert(items@.subrange(0, i + 1) =~= prev.push(items@[i as int]));
        proof {
            lemma_filter_push(prev, |o: Json| option_ok(o), items@[i as int]);
        }
        let o = &items[i];
        match (o.str_field("label"), o.str_field("description")) {
            (Some(l), Some(d)) => {
                out.push(AssistantQuestionOption { label: owned(l), description: owned(d) });
            },
            _ => {},
        }
        i += 1;
    }
    assert(items@.subrange(0, items@.len() as int) =~= items@);
    out
}

/// Filtering a sequence extended by one element.
pub proof fn lemma_filter_push<A>(s: Seq<A>, pred: spec_fn(A) -> bool, e: A)
    ensures
        pred(e) ==> s.push(e).filter(pred) == s.filter(pred).push(e),
        !pred(e) ==> s.push(e).filter(pred) == s.filter(pred),
{
    reveal(Seq::filter);
    assert(s.push(e).drop_last() =~= s);
}

fn parse_question(q: &Json) -> (r: Option<AssistantQuestion>)
    ensures
        r is Some <==> question_ok(*q),
        r matches Some(x) ==> question_is(x, *q),
{
    let question = match q.str_field("question") {
        Some(s) => owned(s),
        None => return None,
    };
    let header = match q.str_field("header") {
        Some(s) => owned(s),
        None => return None,
    };
    let multi_select = match q.get("multiSelect") {
        Some(m) => m.as_bool(),
        None => None,
    };
    let options = match q.get("options") {
        Some(Json::Array(items)) => Some(parse_options(items)),
        _ => None,
    };
    let text_input = match q.get("text_input") {
        Some(ti) => Some(
            AssistantTextInput {
                placeholder: opt_string_field(ti, "placeholder"),
                default: opt_string_field(ti, "default"),
            },
        ),
        None => None,
    };
    let secure_input = match q.get("secure_input") {
        Some(si) => match si.str_field("secret_name") {
            Some(name) => Some(
                AssistantSecureInput {
                    placeholder: opt_string_field(si, "placeholder"),
                    secret_name: owned(name),
                },
            ),
            None => None,
        },
        None => None,
    };
    Some(AssistantQuestion { question, header, options, text_input, secure_input, multi_select })
}

fn parse_questions(v: &Json) -> (r: Vec<AssistantQuestion>)
    ensures
        questions_is(r, *v),
{
    let items = match v.get("questions") {
        Some(Json::Array(items)) => items,
        _ => return Vec::new(),
    };
    let mut out: Vec<AssistantQuestion> = Vec::new();
    let mut i: usize = 0;
    while i < items.len()
        invariant
            i <= items@.len(),
            spec_get(*v, "questions"@) == Some(Json::Array(*items)),
            out@.len() == questions_kept(items@.subrange(0, i as int)).len(),
            forall|k: int|
                0 <= k < out@.len() ==> question_is(
                    #[trigger] out@[k],
                    questions_kept(items@.subrange(0, i as int))[k],
                ),
        decreases items@.len() - i,
    {
        let ghost prev = items@.subrange(0, i as int);
        assert(items@.subrange(0, i + 1) =~= prev.push(items@[i as int]));
        proof {
            lemma_filter_push(prev, |q: Json| question_ok(q), items@[i as int]);
        }
        match parse_question(&items[i]) {
            Some(x) => out.push(x),
            None => {},
        }
        i += 1;
    }
    assert(items@.subrange(0, items@.len() as int) =~= items@);
    out
}

fn json_candidate_exec(t: &Vec<char>) -> (r: Option<String>)
    requires
        !candidate_slice_invalid(t@),
    ensures
        opt_str_is(r, json_candidate(t@)),
{
    let fence = chars_of("```json");
    let close = chars_of("```");
    match find_exec(t, &fence) {
        Some(start) => {
            let rest = vec_slice(t, start + fence.len());
            match find_exec(&rest, &close) {
                Some(end) => {
                    let (lo, hi) = trim_bounds(&rest, 0, end);
                    Some(string_of(&rest, lo, hi))
                },
                None => None,
            }
        },
        None => {
            let open = chars_of("{");
            match (find_exec(t, &open), rfind_char_exec(t, '}')) {
                (Some(s), Some(e)) => {
                    let (lo, hi) = trim_bounds(t, s, e + 1);
                    Some(string_of(t, lo, hi))
                },
                _ => {
                    let (lo, hi) = trim_bounds(t, 0, t.len());
                    assert(t@.subrange(0, t@.len() as int) =~= t@);
                    Some(string_of(t, lo, hi))
                },
            }
        },
    }
}

fn parse_assistant_ui_json(text: &str) -> (r: Option<AssistantUiPayload>)
    requires
        !candidate_slice_invalid(text@),
    ensures
        ui_json_is(r, text@),
{
    let tv = chars_of(text);
    let candidate = match json_candidate_exec(&tv) {
        Some(c) => c,
        None => return None,
    };
    let cv = chars_of(candidate.as_str());
    let brace = chars_of("{");
    if !crate::text::starts_with_exec(&cv, &brace) {
        return None;
    }
    let v = match parse_json(candidate.as_str()) {
        Some(v) => v,
        None => return None,
    };
    let kind_raw = match v.str_field("kind") {
        Some(k) => k,
        None => return None,
    };
    let kind = lower_case(kind_raw);
    ui_payload_of_value(&v, kind.as_str())
}

/// The payload that a parsed JSON value describes (see `ui_value_is`),
/// given its `kind` already lower-cased.
pub fn ui_payload_of_value(v: &Json, kind: &str) -> (r: Option<AssistantUiPayload>)
    ensures
        ui_value_is(r, *v, kind@),
{
    let progress = parse_progress(v);
    let is_done = crate::text::str_eq(kind, "done");
    if is_done || crate::text::str_eq(kind, "info") {
        let summary = match v.str_field("summary") {
            Some(s) => owned(s),
            None => return None,
        };
        if is_done {
            Some(AssistantUiPayload::Done(AssistantInfoUi { kind: owned(kind), summary, progress }))
        } else {
            Some(AssistantUiPayload::Info(AssistantInfoUi { kind: owned(kind), summary, progress }))
        }
    } else if crate::text::str_eq(kind, "spa") {
        let situation = match v.str_field("situation") {
            Some(s) => owned(s),
            None => return None,
        };
        let plan = opt_string_field(v, "plan");
        let findings = parse_findings(v);
        let steps = parse_steps(v);
        let action_v = match v.get("action") {
            Some(a) => a,
            None => return None,
        };
        let label = match action_v.str_field("label") {
            Some(l) => owned(l),
            None => return None,
        };
        let action_type = action_type_from(action_v);
        let qr_data = opt_string_field(v, "qr_data");
        Some(
            AssistantUiPayload::Spa(
                AssistantSpaUi {
                    kind: owned("spa"),
                    situation,
                    findings,
                    steps,
                    plan,
                    action: AssistantCardAction { label, action_type },
                    progress,
                    qr_data,
                },
            ),
        )
    } else if crate::text::str_eq(kind, "user_question") {
        let questions = parse_questions(v);
        Some(
            AssistantUiPayload::UserQuestion(
                AssistantUserQuestionUi { kind: owned("user_question"), questions, progress },
            ),
        )
    } else {
        None
    }
}

fn summary_after(tv: &Vec<char>, marker: &str) -> (r: String)
    requires
        contains(tv@, marker@),
    ensures
        after_first(tv@, marker@) is Some,
        r@ == trim(after_first(tv@, marker@).unwrap()),
{
    let mv = chars_of(marker);
    proof {
        lemma_find_iff_contains(tv@, marker@);
    }
    let i = find_exec(tv, &mv).unwrap();
    let (lo, hi) = trim_bounds(tv, i + mv.len(), tv.len());
    string_of(tv, lo, hi)
}

/// Recognises the UI payload of an assistant reply.
///
/// The JSON form comes first (see `ui_json_is`); when it yields nothing, the
/// legacy `[DONE]`, `[INFO]` and `[SITUATION]`/`[PLAN]`/`[ACTION:…]` markers
/// are read (see `ui_markers_is`). Replies on which the candidate would be
/// sliced backwards (`candidate_slice_invalid`) are left out.
pub fn parse_assistant_ui(text: &str) -> (r: Option<AssistantUiPayload>)
    requires
        !candidate_slice_invalid(text@),
    ensures
        ui_json_found(text@) ==> ui_json_is(r, text@),
        !ui_json_found(text@) ==> ui_markers_is(r, text@),
{
    let from_json = parse_assistant_ui_json(text);
    if from_json.is_some() {
        assert(ui_json_found(text@));
        return from_json;
    }
    assert(!ui_json_found(text@)) by {
        if ui_json_found(text@) {
            let p = choose|p: AssistantUiPayload| ui_json_is(Some(p), text@);
            lemma_ui_json_none_unique(text@, p);
        }
    }
    let tv = chars_of(text);
    if str_contains(text, "[DONE]") {
        let summary = summary_after(&tv, "[DONE]");
        return Some(
            AssistantUiPayload::Done(AssistantInfoUi { kind: owned("done"), summary, progress: None }),
        );
    }
    if str_contains(text, "[INFO]") {
        let summary = summary_after(&tv, "[INFO]");
        return Some(
            AssistantUiPayload::Info(AssistantInfoUi { kind: owned("info"), summary, progress: None }),
        );
    }
    let situation = match parse_between(&tv, "[SITUATION]", "[PLAN]") {
        Some(s) => s,
        None => return None,
    };
    let plan = match parse_between(&tv, "[PLAN]", "[ACTION:") {
        Some(s) => s,
        None => return None,
    };
    let label = match parse_between(&tv, "[ACTION:", "]") {
        Some(s) => s,
        None => return None,
    };
    Some(
        AssistantUiPayload::Spa(
            AssistantSpaUi {
                kind: owned("spa"),
                situation,
                findings: None,
                steps: None,
                plan: Some(plan),
                action: AssistantCardAction { label, action_type: AssistantActionType::RunStep },
                progress: None,
                qr_data: None,
            },
        ),
    )
}

/// When the JSON form yields nothing for one reply, no payload satisfies it.
proof fn lemma_ui_json_none_unique(text: Seq<char>, p: AssistantUiPayload)
    requires
        ui_json_is(None, text),
    ensures
        !ui_json_is(Some(p), text),
{
}

/// Whether a reply can be handed to `parse_assistant_ui`.
pub fn parse_assistant_ui_accepts(text: &str) -> (b: bool)
    ensures
        b == !candidate_slice_invalid(text@),
{
    let tv = chars_of(text);
    let fence = chars_of("```json");
    let open = chars_of("{");
    if find_exec(&tv, &fence).is_some() {
        return true;
    }
    match (find_exec(&tv, &open), rfind_char_exec(&tv, '}')) {
        (Some(s), Some(e)) => !(e < s && s - e > 1),
        _ => true,
    }
}

} // verus!
