//! Keeping the conversation within the model's context window: token
//! estimates, the rendering of messages for a summary, and when and how
//! older history is compressed.
use vstd::prelude::*;
use vstd::string::StrSliceExecFns;

use crate::json::{json_text, json_to_string};
use crate::llm::{ContentBlock, Message, MessageContent};
use crate::text::{
    chars_of, joined, lemma_joined_step, owned, push_str, slice_vec, string_of_all, str_eq, trim,
    trim_bounds,
};

verus! {

/// The context window the estimates are held against.
pub const ESTIMATED_MAX_CONTEXT_TOKENS: usize = 160000;

/// Four fifths of the window: compression starts above this.
pub const CONTEXT_SOFT_THRESHOLD_TOKENS: usize = 128000;

/// Nine tenths of the window.
pub const CONTEXT_HARD_THRESHOLD_TOKENS: usize = 144000;

/// How many recent messages stay verbatim.
pub const RECENT_MESSAGES_TO_KEEP: usize = 6;

/// The most characters of history given to the summarizer.
pub const MAX_SUMMARY_INPUT_CHARS: usize = 48000;

/// How many characters of history the fallback summary keeps.
pub const FALLBACK_SUMMARY_EXCERPT_CHARS: usize = 1600;

/// The longest rendering of one message in a transcript.
pub const MAX_RENDERED_MESSAGE_CHARS: usize = 1500;

/// Four characters per token, rounded up.
pub open spec fn spec_estimate_tokens(text: Seq<char>) -> int {
    ((text.len() + 3) / 4) as int
}

/// The estimated number of tokens of a text.
pub fn estimate_tokens(text: &str) -> (r: usize)
    ensures
        r == spec_estimate_tokens(text@),
{
    let n = text.unicode_len();
    n / 4 + if n % 4 == 0 {
        0
    } else {
        1
    }
}

/// How a role is shown in a transcript.
pub open spec fn role_label(role: Seq<char>) -> Seq<char> {
    if role == "user"@ {
        "User"@
    } else if role == "assistant"@ {
        "Assistant"@
    } else {
        role
    }
}

/// How a block is shown in a transcript.
pub open spec fn render_block(b: ContentBlock) -> Seq<char> {
    match b {
        ContentBlock::Text { text } => text@,
        ContentBlock::ToolUse { name, input, .. } => "Tool call `"@ + name@ + "` with input "@
            + json_text(input),
        ContentBlock::ToolResult { content, is_error, .. } => if is_error == Some(true) {
            "Tool error: "@ + content@
        } else {
            "Tool result: "@ + content@
        },
    }
}

/// How a message is shown in a transcript: its role, then its text or its
/// blocks one per line.
pub open spec fn render_message(m: Message) -> Seq<char> {
    role_label(m.role@) + ": "@ + match m.content {
        MessageContent::Text(t) => t@,
        MessageContent::Blocks(bs) => joined(bs@.map_values(|b: ContentBlock| render_block(b)), "\n"@),
    }
}

fn render_block_exec(b: &ContentBlock) -> (r: String)
    ensures
        r@ == render_block(*b),
{
    match b {
        ContentBlock::Text { text } => text.clone(),
        ContentBlock::ToolUse { name, input, .. } => {
            let mut s = owned("Tool call `");
            push_str(&mut s, name.as_str());
            push_str(&mut s, "` with input ");
            let j = json_to_string(input);
            push_str(&mut s, j.as_str());
            s
        },
        ContentBlock::ToolResult { content, is_error, .. } => {
            let err = match is_error {
                Some(e) => *e,
                None => false,
            };
            let mut s = if err {
                owned("Tool error: ")
            } else {
                owned("Tool result: ")
            };
            push_str(&mut s, content.as_str());
            s
        },
    }
}

/// Render a message as a line of a transcript (see `render_message`).
pub fn render_message_for_summary(message: &Message) -> (r: String)
    ensures
        r@ == render_message(*message),
{
    let role = message.role.as_str();
    let mut s = if str_eq(role, "user") {
        owned("User")
    } else if str_eq(role, "assistant") {
        owned("Assistant")
    } else {
        owned(role)
    };
    push_str(&mut s, ": ");
    match &message.content {
        MessageContent::Text(t) => {
            push_str(&mut s, t.as_str());
        },
        MessageContent::Blocks(blocks) => {
            let ghost parts = blocks@.map_values(|b: ContentBlock| render_block(b));
            let ghost head = s@;
            let mut i: usize = 0;
            while i < blocks.len()
                invariant
                    i <= blocks@.len(),
                    parts == blocks@.map_values(|b: ContentBlock| render_block(b)),
                    s@ == head + joined(parts.take(i as int), "\n"@),
                decreases blocks@.len() - i,
            {
                if i > 0 {
                    push_str(&mut s, "\n");
                }
                let r = render_block_exec(&blocks[i]);
                push_str(&mut s, r.as_str());
                proof {
                    if i == 0 {
                        assert(parts.take(1).len() == 1);
                        assert(joined(parts.take(1), "\n"@) == parts[0]);
                    } else {
                        lemma_joined_step(parts, "\n"@, i as int);
                    }
                    assert(s@ =~= head + joined(parts.take(i + 1), "\n"@));
                }
                i += 1;
            }
            assert(parts.take(blocks@.len() as int) =~= parts);
        },
    }
    s
}

/// The estimated tokens of a message: a fixed overhead for its role, and its rendering.
pub open spec fn spec_message_tokens(m: Message) -> int {
    8 + spec_estimate_tokens(render_message(m))
}

/// The sum of the estimates of the messages.
pub open spec fn spec_messages_tokens(ms: Seq<Message>) -> int
    decreases ms.len(),
{
    if ms.len() == 0 {
        0
    } else {
        spec_messages_tokens(ms.drop_last()) + spec_message_tokens(ms.last())
    }
}

/// The estimated tokens of a message.
pub fn estimate_message_tokens(message: &Message) -> (r: usize)
    ensures
        r == spec_message_tokens(*message) || (r == usize::MAX && spec_message_tokens(*message)
            > usize::MAX),
{
    let rendered = render_message_for_summary(message);
    estimate_tokens(rendered.as_str()).saturating_add(8)
}

/// The estimated tokens of a list of messages, capped at `usize::MAX`.
pub fn estimate_messages_tokens(messages: &Vec<Message>) -> (r: usize)
    ensures
        r == (if spec_messages_tokens(messages@) > usize::MAX {
            usize::MAX as int
        } else {
            spec_messages_tokens(messages@)
        }),
{
    let mut total: usize = 0;
    let mut i: usize = 0;
    while i < messages.len()
        invariant
            i <= messages@.len(),
            total == (if spec_messages_tokens(messages@.subrange(0, i as int)) > usize::MAX {
                usize::MAX as int
            } else {
                spec_messages_tokens(messages@.subrange(0, i as int))
            }),
        decreases messages@.len() - i,
    {
        let ghost pre = messages@.subrange(0, i + 1);
        assert(pre.drop_last() =~= messages@.subrange(0, i as int));
        proof {
            lemma_messages_tokens_nonneg(messages@.subrange(0, i as int));
        }
        let t = estimate_message_tokens(&messages[i]);
        total = total.saturating_add(t);
        i += 1;
    }
    assert(messages@.subrange(0, messages@.len() as int) =~= messages@);
    total
}

proof fn lemma_messages_tokens_nonneg(ms: Seq<Message>)
    ensures
        spec_messages_tokens(ms) >= 0,
    decreases ms.len(),
{
    if ms.len() > 0 {
        lemma_messages_tokens_nonneg(ms.drop_last());
    }
}

/// A rendering shortened to 1500 characters and an ellipsis when longer.
pub open spec fn clipped(r: Seq<char>) -> Seq<char> {
    if r.len() > MAX_RENDERED_MESSAGE_CHARS {
        r.take(MAX_RENDERED_MESSAGE_CHARS as int) + "..."@
    } else {
        r
    }
}

/// The longest suffix of the sections whose total length fits the budget.
pub open spec fn kept_sections(cs: Seq<Seq<char>>, budget: int) -> Seq<Seq<char>>
    decreases cs.len(),
{
    if cs.len() == 0 {
        Seq::empty()
    } else if cs.last().len() > budget {
        Seq::empty()
    } else {
        kept_sections(cs.drop_last(), budget - cs.last().len()).push(cs.last())
    }
}

/// The transcript of the messages for the summarizer: the most recent
/// messages whose clipped renderings fit in `max_chars`, oldest first,
/// separated by blank lines.
pub open spec fn spec_transcript(ms: Seq<Message>, max_chars: int) -> Seq<char> {
    joined(
        kept_sections(ms.map_values(|m: Message| clipped(render_message(m))), max_chars),
        "\n\n"@,
    )
}

/// The transcript of older messages given to the summarizer (see `spec_transcript`).
pub fn summarized_transcript(messages: &Vec<Message>, max_chars: usize) -> (r: String)
    ensures
        r@ == spec_transcript(messages@, max_chars as int),
{
    let ghost cs = messages@.map_values(|m: Message| clipped(render_message(m)));
    let mut sections: Vec<String> = Vec::new();
    let mut i: usize = 0;
    while i < messages.len()
        invariant
            i <= messages@.len(),
            cs == messages@.map_values(|m: Message| clipped(render_message(m))),
            sections@.len() == i,
            forall|k: int| 0 <= k < i ==> (#[trigger] sections@[k])@ == cs[k],
        decreases messages@.len() - i,
    {
        let rendered = render_message_for_summary(&messages[i]);
        let n = rendered.as_str().unicode_len();
        if n > MAX_RENDERED_MESSAGE_CHARS {
            let v = chars_of(rendered.as_str());
            let head = slice_vec(&v, 0, MAX_RENDERED_MESSAGE_CHARS);
            let mut c = string_of_all(&head);
            push_str(&mut c, "...");
            proof {
                assert(v@.subrange(0, MAX_RENDERED_MESSAGE_CHARS as int) =~= rendered@.take(
                    MAX_RENDERED_MESSAGE_CHARS as int,
                ));
            }
            sections.push(c);
        } else {
            sections.push(rendered);
        }
        i += 1;
    }
    let ghost sv = sections@.map_values(|s: String| s@);
    assert(sv =~= cs);
    let mut j: usize = sections.len();
    let mut used: usize = 0;
    assert(cs.take(cs.len() as int) =~= cs);
    assert(cs.subrange(cs.len() as int, cs.len() as int) =~= Seq::<Seq<char>>::empty());
    loop
        invariant
            j <= sections@.len(),
            sections@.len() == cs.len(),
            sv == sections@.map_values(|s: String| s@),
            sv == cs,
            used <= max_chars,
            kept_sections(cs, max_chars as int) == kept_sections(
                cs.take(j as int),
                max_chars - used,
            ) + cs.subrange(j as int, cs.len() as int),
        ensures
            kept_sections(cs, max_chars as int) == cs.subrange(j as int, cs.len() as int),
        decreases j,
    {
        if j == 0 {
            assert(cs.take(0) =~= Seq::<Seq<char>>::empty());
            assert(Seq::<Seq<char>>::empty() + cs.subrange(0, cs.len() as int) =~= cs.subrange(
                0,
                cs.len() as int,
            ));
            break;
        }
        let n = sections[j - 1].as_str().unicode_len();
        assert(cs.take(j as int).last() == cs[j - 1]);
        assert(cs.take(j as int).drop_last() =~= cs.take(j - 1));
        if n > max_chars - used {
            assert(Seq::<Seq<char>>::empty() + cs.subrange(j as int, cs.len() as int)
                =~= cs.subrange(j as int, cs.len() as int));
            break;
        }
        proof {
            let k = kept_sections(cs.take(j - 1), max_chars - used - n);
            assert(k.push(cs[j - 1]) + cs.subrange(j as int, cs.len() as int) =~= k
                + cs.subrange(j - 1, cs.len() as int));
        }
        used = used + n;
        j = j - 1;
    }
    let mut kept: Vec<String> = Vec::new();
    let mut k: usize = j;
    while k < sections.len()
        invariant
            j <= k <= sections@.len(),
            sv == sections@.map_values(|s: String| s@),
            kept@.map_values(|s: String| s@) == sv.subrange(j as int, k as int),
        decreases sections@.len() - k,
    {
        let ghost before = kept@.map_values(|s: String| s@);
        let c = sections[k].clone();
        assert(c@ == sv[k as int]);
        kept.push(c);
        assert(kept@.map_values(|s: String| s@) =~= before.push(sv[k as int]));
        assert(sv.subrange(j as int, k + 1) =~= sv.subrange(j as int, k as int).push(sv[k as int]));
        k += 1;
    }
    crate::text::join_strings(&kept, "\n\n")
}

/// The note that the fallback summary always carries.
pub open spec fn fallback_note() -> Seq<char> {
    "## Pending / watch-outs\n- Older session history was trimmed after automatic compression failed. Use the most recent verbatim turns for exact details."@
}

/// The summary kept when the summarizer fails: the existing summary
/// (trimmed, when not blank), the note, and the last 1600 characters of the
/// history (trimmed, when not blank), separated by blank lines.
pub open spec fn spec_fallback_summary(existing: Option<Seq<char>>, text: Seq<char>) -> Seq<char> {
    let excerpt = text.subrange(
        if text.len() > FALLBACK_SUMMARY_EXCERPT_CHARS {
            text.len() - FALLBACK_SUMMARY_EXCERPT_CHARS
        } else {
            0
        },
        text.len() as int,
    );
    let first: Seq<Seq<char>> = match existing {
        Some(e) => if trim(e).len() > 0 {
            seq![trim(e)]
        } else {
            Seq::empty()
        },
        None => Seq::empty(),
    };
    let last: Seq<Seq<char>> = if trim(excerpt).len() > 0 {
        seq!["## Recent older context excerpt\n"@ + trim(excerpt)]
    } else {
        Seq::empty()
    };
    joined(first + seq![fallback_note()] + last, "\n\n"@)
}

/// The summary kept when the summarizer fails (see `spec_fallback_summary`).
pub fn fallback_context_summary(existing_summary: Option<&str>, messages_text: &str) -> (r: String)
    ensures
        r@ == spec_fallback_summary(
            match existing_summary {
                Some(e) => Some(e@),
                None => None,
            },
            messages_text@,
        ),
{
    let mut sections: Vec<String> = Vec::new();
    match existing_summary {
        Some(e) => {
            let t = crate::text::trimmed(e);
            if t.as_str().unicode_len() > 0 {
                sections.push(t);
            }
        },
        None => {},
    }
    let ghost first = sections@.map_values(|s: String| s@);
    assert(first =~= (match existing_summary {
        Some(e) => if trim(e@).len() > 0 {
            seq![trim(e@)]
        } else {
            Seq::<Seq<char>>::empty()
        },
        None => Seq::<Seq<char>>::empty(),
    }));
    sections.push(
        owned(
            "## Pending / watch-outs\n- Older session history was trimmed after automatic compression failed. Use the most recent verbatim turns for exact details.",
        ),
    );
    let ghost second = sections@.map_values(|s: String| s@);
    assert(second =~= first + seq![fallback_note()]);
    let v = chars_of(messages_text);
    let start = if v.len() > FALLBACK_SUMMARY_EXCERPT_CHARS {
        v.len() - FALLBACK_SUMMARY_EXCERPT_CHARS
    } else {
        0
    };
    let (a, b) = trim_bounds(&v, start, v.len());
    if a < b {
        let mut s = owned("## Recent older context excerpt\n");
        let ex = slice_vec(&v, a, b);
        let exs = string_of_all(&ex);
        push_str(&mut s, exs.as_str());
        sections.push(s);
    }
    let ghost all = sections@.map_values(|s: String| s@);
    proof {
        let excerpt = messages_text@.subrange(start as int, messages_text@.len() as int);
        assert(v@.subrange(start as int, v@.len() as int) =~= excerpt);
        if a < b {
            assert(all =~= second + seq![
                "## Recent older context excerpt\n"@ + trim(excerpt),
            ]);
        } else {
            assert(all =~= second + Seq::<Seq<char>>::empty());
        }
    }
    crate::text::join_strings(&sections, "\n\n")
}

/// The message that carries the compressed summary to the model, when there
/// is a summary that is not blank.
pub fn summary_message(compressed_summary: Option<&str>) -> (r: Option<Message>)
    ensures
        r is Some <==> (compressed_summary matches Some(s) && trim(s@).len() > 0),
        r matches Some(m) ==> crate::llm::text_message_is(
            m,
            "assistant"@,
            "[Compressed session context]\n"@ + compressed_summary.unwrap()@
            + "\n\nKeep this summary in mind, but rely on the most recent verbatim turns when they conflict."@,
        ),
{
    let s = match compressed_summary {
        Some(s) => s,
        None => return None,
    };
    let t = crate::text::trimmed(s);
    if t.as_str().unicode_len() == 0 {
        return None;
    }
    let mut text = owned("[Compressed session context]\n");
    push_str(&mut text, s);
    push_str(
        &mut text,
        "\n\nKeep this summary in mind, but rely on the most recent verbatim turns when they conflict.",
    );
    Some(Message { role: owned("assistant"), content: MessageContent::Text(text) })
}

/// Where the history is cut when it is compressed: `None` when it stays as
/// it is (few messages, or under the threshold: four fifths of the window, or
/// when forced after a context-limit error, half of nine tenths); else the
/// number of older messages to summarize (all but the last six, or when
/// forced all but the last four, at least one).
pub open spec fn spec_compression_split(count: int, tokens: int, force: bool) -> Option<int> {
    let threshold = if force {
        (CONTEXT_HARD_THRESHOLD_TOKENS / 2) as int
    } else {
        CONTEXT_SOFT_THRESHOLD_TOKENS as int
    };
    if count <= RECENT_MESSAGES_TO_KEEP || tokens < threshold {
        None
    } else if force {
        Some(if count - 4 > 1 { count - 4 } else { 1 })
    } else {
        Some(count - RECENT_MESSAGES_TO_KEEP)
    }
}

/// Decide whether and where to compress a history of `count` messages with
/// an estimated `tokens` (messages and existing summary).
pub fn compression_split(count: usize, tokens: usize, force: bool) -> (r: Option<usize>)
    ensures
        r matches Some(k) ==> spec_compression_split(count as int, tokens as int, force) == Some(
            k as int,
        ),
        r is None ==> spec_compression_split(count as int, tokens as int, force) is None,
        r matches Some(k) ==> 1 <= k < count,
{
    if count <= RECENT_MESSAGES_TO_KEEP {
        return None;
    }
    let threshold = if force {
        CONTEXT_HARD_THRESHOLD_TOKENS / 2
    } else {
        CONTEXT_SOFT_THRESHOLD_TOKENS
    };
    if tokens < threshold {
        return None;
    }
    if force {
        let k = count - 4;
        Some(if k > 1 { k } else { 1 })
    } else {
        Some(count - RECENT_MESSAGES_TO_KEEP)
    }
}

/// The instructions given to the summarizer that compresses older history.
pub const COMPRESSION_PROMPT: &'static str = "Compress this older IT support session history into a concise handoff for the main model.\nPreserve only durable facts the assistant still needs:\n- current diagnosis or strongest working theory\n- notable tool findings and error messages\n- actions already taken and their results\n- pending user follow-up or approval state if mentioned\n- dead ends worth avoiding repeating\nOmit chit-chat, duplicated logs, and routine command output.\nUse Markdown with these sections when relevant:\n## Current state\n## Actions taken\n## Pending / watch-outs\nKeep it compact and factual.\n";

/// The summarizer's instructions: the compression prompt, and when there is
/// an existing summary that is not blank, that summary with the request to
/// merge the new history into it.
pub fn context_summary_prompt(existing_summary: Option<&str>) -> (r: String)
    ensures
        r@ == COMPRESSION_PROMPT@ + (match existing_summary {
            Some(e) => if trim(e@).len() > 0 {
                "\nExisting compressed summary:\n"@ + e@
                    + "\n\nMerge the new history into that summary and return a single updated summary.\n"@
            } else {
                Seq::empty()
            },
            None => Seq::empty(),
        }),
{
    let mut s = owned(COMPRESSION_PROMPT);
    let ghost head = s@;
    match existing_summary {
        Some(e) => {
            let t = crate::text::trimmed(e);
            if t.as_str().unicode_len() > 0 {
                push_str(&mut s, "\nExisting compressed summary:\n");
                push_str(&mut s, e);
                push_str(
                    &mut s,
                    "\n\nMerge the new history into that summary and return a single updated summary.\n",
                );
            } else {
                assert(head + Seq::<char>::empty() =~= head);
            }
        },
        None => {
            assert(head + Seq::<char>::empty() =~= head);
        },
    }
    s
}

} // verus!
