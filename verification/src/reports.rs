//! What the application reports about itself: pairing status, session
//! summaries, feedback context, the steps of a scripted prompt run, and a
//! session exported as Markdown.
use vstd::prelude::*;

use crate::assistant_ui::{
    candidate_slice_invalid, parse_assistant_ui, ui_json_found, ui_json_is, ui_markers_is,
    AssistantUiPayload,
};
use crate::mobile::PairingState;
use crate::sessions::Session;
use crate::text::{owned, push_str, str_eq};

verus! {

/// Whether a phone is paired, and which.
#[derive(Debug, Clone)]
pub struct PairingStatus {
    pub paired: bool,
    pub device_name: Option<String>,
    pub paired_at: Option<String>,
    pub server_port: u16,
}

/// A session as the frontend lists it.
#[derive(Debug, Clone)]
pub struct SessionInfo {
    pub id: String,
    pub created_at: String,
    pub message_count: usize,
}

/// A recent request to the model and its response.
#[derive(Debug, Clone)]
pub struct TraceSummary {
    pub timestamp: String,
    pub request: String,
    pub response: String,
}

/// What a feedback report carries.
#[derive(Debug, Clone)]
pub struct FeedbackContext {
    pub version: String,
    pub os: String,
    pub traces: Vec<TraceSummary>,
}

/// The record of a scripted prompt run.
#[derive(Debug, Clone)]
pub struct PromptRunResult {
    pub session_id: String,
    pub turns: Vec<(String, String)>,
    pub reached_done: bool,
}

/// The pairing status shown in the settings.
pub fn pairing_status(state: &PairingState, server_port: u16) -> (r: PairingStatus)
    ensures
        r.paired == state.paired_device is Some,
        r.device_name == (match state.paired_device {
            Some(d) => Some(d.device_name),
            None => None,
        }),
        r.paired_at == (match state.paired_device {
            Some(d) => Some(d.paired_at),
            None => None,
        }),
        r.server_port == server_port,
{
    match &state.paired_device {
        Some(d) => PairingStatus {
            paired: true,
            device_name: Some(d.device_name.clone()),
            paired_at: Some(d.paired_at.clone()),
            server_port,
        },
        None => PairingStatus { paired: false, device_name: None, paired_at: None, server_port },
    }
}

/// The listing entry of a session.
pub fn session_info(session: &Session) -> (r: SessionInfo)
    ensures
        r.id == session.id,
        r.created_at == session.created_at,
        r.message_count == session.messages@.len(),
{
    SessionInfo {
        id: session.id.clone(),
        created_at: session.created_at.clone(),
        message_count: session.messages.len(),
    }
}

/// The feedback context: the version, the OS and the recent traces
/// (timestamp, request, response), in order.
pub fn feedback_context(version: String, os: String, traces: Vec<(String, String, String)>) -> (r: FeedbackContext)
    ensures
        r.version == version,
        r.os == os,
        r.traces@.len() == traces@.len(),
        forall|i: int|
            0 <= i < traces@.len() ==> (#[trigger] r.traces@[i]).timestamp == traces@[i].0
                && r.traces@[i].request == traces@[i].1 && r.traces@[i].response == traces@[i].2,
{
    let mut out: Vec<TraceSummary> = Vec::new();
    let mut i: usize = 0;
    while i < traces.len()
        invariant
            i <= traces@.len(),
            out@.len() == i,
            forall|k: int|
                0 <= k < i ==> (#[trigger] out@[k]).timestamp == traces@[k].0 && out@[k].request
                    == traces@[k].1 && out@[k].response == traces@[k].2,
        decreases traces@.len() - i,
    {
        let t = &traces[i];
        out.push(
            TraceSummary { timestamp: t.0.clone(), request: t.1.clone(), response: t.2.clone() },
        );
        i += 1;
    }
    FeedbackContext { version, os, traces: out }
}

/// The output recorded when a scripted turn times out.
pub fn runner_timeout_output() -> (r: String)
    ensures
        r@ == "{\"kind\":\"info\",\"summary\":\"Runner timeout waiting for assistant response.\"}"@,
{
    owned("{\"kind\":\"info\",\"summary\":\"Runner timeout waiting for assistant response.\"}")
}

/// What a scripted run does after an assistant output.
#[derive(Debug, Clone, PartialEq, Eq)]
pub enum PromptStep {
    /// The assistant declared the fix done: stop, done.
    Done,
    /// Answer with this input and go on.
    Continue(String),
    /// Stop without reaching done.
    Stop,
}

/// The step that follows an assistant output: done stops as done; a plan is
/// confirmed; questions are answered with the first options; anything else stops.
pub open spec fn step_for(p: Option<AssistantUiPayload>) -> Option<Option<Seq<char>>> {
    match p {
        Some(AssistantUiPayload::Done(_)) => None,
        Some(AssistantUiPayload::Spa(_)) => Some(Some("Go ahead"@)),
        Some(AssistantUiPayload::UserQuestion(_)) => Some(
            Some("Pick the first option for each question."@),
        ),
        _ => Some(None),
    }
}

/// Decide the step that follows an assistant output (see `step_for`), by the
/// payload recognised in it.
pub fn prompt_step(output: &str) -> (r: PromptStep)
    requires
        !candidate_slice_invalid(output@),
    ensures
        exists|p: Option<AssistantUiPayload>|
            {
                &&& (ui_json_found(output@) ==> ui_json_is(p, output@))
                &&& (!ui_json_found(output@) ==> ui_markers_is(p, output@))
                &&& match step_for(p) {
                    None => r == PromptStep::Done,
                    Some(Some(t)) => r matches PromptStep::Continue(s) && s@ == t,
                    Some(None) => r == PromptStep::Stop,
                }
            },
{
    let p = parse_assistant_ui(output);
    match p {
        Some(AssistantUiPayload::Done(_)) => PromptStep::Done,
        Some(AssistantUiPayload::Spa(_)) => PromptStep::Continue(owned("Go ahead")),
        Some(AssistantUiPayload::UserQuestion(_)) => PromptStep::Continue(
            owned("Pick the first option for each question."),
        ),
        _ => PromptStep::Stop,
    }
}

// ── Session export ─────────────────────────────────────────────────────

/// How a message's author is shown in an export.
pub open spec fn role_label(role: Seq<char>) -> Seq<char> {
    if role == "user"@ {
        "**You**"@
    } else if role == "assistant"@ {
        "**Noah**"@
    } else if role == "system"@ {
        "*System*"@
    } else {
        role
    }
}

/// The conversation part of an export: each message (role, text) as a paragraph.
pub open spec fn messages_markdown(ms: Seq<(String, String)>) -> Seq<char>
    decreases ms.len(),
{
    if ms.len() == 0 {
        Seq::empty()
    } else {
        messages_markdown(ms.drop_last()) + role_label(ms.last().0@) + ": "@ + ms.last().1@
            + "\n\n"@
    }
}

/// The changes part of an export: each change (tool, description, undone)
/// as a list item.
pub open spec fn changes_markdown(cs: Seq<(String, String, bool)>) -> Seq<char>
    decreases cs.len(),
{
    if cs.len() == 0 {
        Seq::empty()
    } else {
        changes_markdown(cs.drop_last()) + "- **"@ + cs.last().0@ + "**: "@ + cs.last().1@ + (if cs.last().2 {
            " (undone)"@
        } else {
            Seq::empty()
        }) + "\n"@
    }
}

/// A session exported as Markdown: its title (`Untitled Session` without
/// one) and date (`Unknown` without one), the conversation, the changes
/// made when there are any, and the exporting version.
pub open spec fn spec_session_markdown(
    title: Option<Seq<char>>,
    created: Option<Seq<char>>,
    messages: Seq<(String, String)>,
    changes: Seq<(String, String, bool)>,
    version: Seq<char>,
) -> Seq<char> {
    "# "@ + (match title {
        Some(t) => t,
        None => "Untitled Session"@,
    }) + "\n\n"@ + "**Date:** "@ + (match created {
        Some(c) => c,
        None => "Unknown"@,
    }) + "\n\n"@ + "---\n\n## Conversation\n\n"@ + messages_markdown(messages) + (if changes.len()
        > 0 {
        "---\n\n## Changes Made\n\n"@ + changes_markdown(changes) + "\n"@
    } else {
        Seq::empty()
    }) + "---\n\n*Exported from Noah v"@ + version + "*\n"@
}

fn push_role_label(md: &mut String, role: &str)
    ensures
        final(md)@ == old(md)@ + role_label(role@),
{
    if str_eq(role, "user") {
        push_str(md, "**You**");
    } else if str_eq(role, "assistant") {
        push_str(md, "**Noah**");
    } else if str_eq(role, "system") {
        push_str(md, "*System*");
    } else {
        push_str(md, role);
    }
}

/// Export a session as Markdown (see `spec_session_markdown`): its stored
/// title and creation date when it is listed, its messages as (role, text),
/// its recorded changes as (tool, description, undone).
pub fn session_markdown(
    title: Option<&str>,
    created: Option<&str>,
    messages: &Vec<(String, String)>,
    changes: &Vec<(String, String, bool)>,
    version: &str,
) -> (r: String)
    ensures
        r@ == spec_session_markdown(
            match title {
                Some(t) => Some(t@),
                None => None,
            },
            match created {
                Some(c) => Some(c@),
                None => None,
            },
            messages@,
            changes@,
            version@,
        ),
{
    let mut md = owned("# ");
    match title {
        Some(t) => push_str(&mut md, t),
        None => push_str(&mut md, "Untitled Session"),
    }
    push_str(&mut md, "\n\n");
    push_str(&mut md, "**Date:** ");
    match created {
        Some(c) => push_str(&mut md, c),
        None => push_str(&mut md, "Unknown"),
    }
    push_str(&mut md, "\n\n");
    push_str(&mut md, "---\n\n## Conversation\n\n");
    let ghost head = md@;
    let mut i: usize = 0;
    while i < messages.len()
        invariant
            i <= messages@.len(),
            md@ == head + messages_markdown(messages@.take(i as int)),
        decreases messages@.len() - i,
    {
        assert(messages@.take(i + 1).drop_last() =~= messages@.take(i as int));
        push_role_label(&mut md, messages[i].0.as_str());
        push_str(&mut md, ": ");
        push_str(&mut md, messages[i].1.as_str());
        push_str(&mut md, "\n\n");
        i += 1;
    }
    assert(messages@.take(messages@.len() as int) =~= messages@);
    let ghost mid = md@;
    if changes.len() > 0 {
        push_str(&mut md, "---\n\n## Changes Made\n\n");
        let ghost head2 = md@;
        let mut k: usize = 0;
        while k < changes.len()
            invariant
                k <= changes@.len(),
                md@ == head2 + changes_markdown(changes@.take(k as int)),
            decreases changes@.len() - k,
        {
            assert(changes@.take(k + 1).drop_last() =~= changes@.take(k as int));
            push_str(&mut md, "- **");
            push_str(&mut md, changes[k].0.as_str());
            push_str(&mut md, "**: ");
            push_str(&mut md, changes[k].1.as_str());
            if changes[k].2 {
                push_str(&mut md, " (undone)");
            }
            push_str(&mut md, "\n");
            proof {
                if !changes@[k as int].2 {
                    assert(md@ =~= head2 + changes_markdown(changes@.take(k + 1)));
                }
            }
            k += 1;
        }
        assert(changes@.take(changes@.len() as int) =~= changes@);
        push_str(&mut md, "\n");
    }
    push_str(&mut md, "---\n\n*Exported from Noah v");
    push_str(&mut md, version);
    push_str(&mut md, "*\n");
    md
}

} // verus!
