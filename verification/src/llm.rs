//! The language-model client's data and decisions: messages and content
//! blocks, authentication, friendly errors, the retry policy of a request,
//! and the text taken from a response.
use vstd::prelude::*;

use crate::json::{parsed_json, Json};
use vstd::string::StrSliceExecFns;
use crate::text::{
    chars_of, contains, ends_with, ends_with_exec, find, find_exec, nat_decimal, owned, push_str,
    slice_vec, starts_with, starts_with_exec, str_contains, string_of_all, to_ascii_lowercase,
    trim, trim_bounds, trim_end, ascii_lower, u64_decimal,
};

verus! {

/// The model used for ordinary turns, without its family prefix (which the
/// application's configuration supplies).
pub const MODEL: &'static str = "sonnet-4-20250514";

/// The fast model used for titles, summaries and analyses, without its
/// family prefix.
pub const TITLE_MODEL: &'static str = "haiku-4-5-20251001";

/// The Anthropic messages endpoint.
pub const ANTHROPIC_API_URL: &'static str = "https://api.anthropic.com/v1/messages";

/// The API version header value.
pub const API_VERSION: &'static str = "2023-06-01";

/// The output token limit of an ordinary turn.
pub const MAX_TOKENS: u32 = 4096;

/// How often a failed request is retried.
pub const MAX_RETRIES: u32 = 3;

/// The result of a diagnostics analysis.
#[derive(Debug, Clone)]
pub struct DiagnosticAnalysis {
    pub noteworthy: bool,
    pub headline: String,
    pub detail: String,
}

impl DiagnosticAnalysis {
    /// The analysis used when the model's answer cannot be read: nothing noteworthy.
    pub fn nothing_noteworthy() -> (r: Self)
        ensures
            !r.noteworthy,
            r.headline@.len() == 0,
            r.detail@.len() == 0,
    {
        DiagnosticAnalysis { noteworthy: false, headline: String::new(), detail: String::new() }
    }
}

/// How requests are authenticated.
#[derive(Debug, Clone)]
pub enum AuthMode {
    ApiKey(String),
    Proxy { base_url: String, token: String },
}

/// A message of the conversation.
#[derive(Debug)]
pub struct Message {
    pub role: String,
    pub content: MessageContent,
}

/// A message's content: plain text, or a list of blocks.
#[derive(Debug)]
pub enum MessageContent {
    Text(String),
    Blocks(Vec<ContentBlock>),
}

/// A block of a message.
#[derive(Debug)]
pub enum ContentBlock {
    Text { text: String },
    ToolUse { id: String, name: String, input: Json },
    ToolResult { tool_use_id: String, content: String, is_error: Option<bool> },
}

/// `m` is a plain-text message from `role` with text `text`.
pub open spec fn text_message_is(m: Message, role: Seq<char>, text: Seq<char>) -> bool {
    &&& m.role@ == role
    &&& m.content is Text
    &&& m.content->Text_0@ == text
}

/// A tool as offered to the model.
#[derive(Debug)]
pub struct ToolDef {
    pub name: String,
    pub description: String,
    pub input_schema: Json,
}

/// A block of the model's response.
#[derive(Debug)]
pub enum ResponseBlock {
    Text { text: String },
    ToolUse { id: String, name: String, input: Json },
}

/// Token counts of a response.
#[derive(Debug, Clone, Copy)]
pub struct Usage {
    pub input_tokens: u32,
    pub output_tokens: u32,
}

/// A block of the system prompt.
#[derive(Debug, Clone)]
pub struct SystemBlock {
    pub block_type: String,
    pub text: String,
}

/// The instructions for a session's title.
pub const TITLE_PROMPT: &'static str = "Generate a short title (max 6 words) for a computer support session based on the user's message. Output only the title, nothing else. No quotes.";

/// The instructions for a session's summary.
pub const SUMMARY_PROMPT: &'static str = "Summarize this IT support session in 2-3 short bullet points. Focus on: what was the problem, what was done, and the outcome. Be concise. Use plain language.";

/// The instructions for analysing a category's diagnostics: what counts as
/// concerning, and the JSON answer expected.
pub open spec fn spec_analysis_prompt(category: Seq<char>) -> Seq<char> {
    "You are a conservative IT health monitor analyzing "@ + category
        + " diagnostics.\nOnly flag genuinely concerning issues:\n- Disk usage >90% or a single reclaimable folder >5GB\n- Recent crash reports (<24h) for user-facing apps\n- A process consuming >90% CPU persistently\n- Critically low RAM (<500MB free) while idle\n\nRespond in exactly this JSON format (no markdown, no extra text):\n{\"noteworthy\": true/false, \"headline\": \"~60 char summary\", \"detail\": \"1-2 sentence explanation\"}\n\nIf nothing is concerning, set noteworthy to false with empty headline and detail."@
}

/// The system prompt for analysing the diagnostics of `category`.
pub fn analysis_prompt(category: &str) -> (r: String)
    ensures
        r@ == spec_analysis_prompt(category@),
{
    let mut s = owned("You are a conservative IT health monitor analyzing ");
    push_str(&mut s, category);
    push_str(
        &mut s,
        " diagnostics.\nOnly flag genuinely concerning issues:\n- Disk usage >90% or a single reclaimable folder >5GB\n- Recent crash reports (<24h) for user-facing apps\n- A process consuming >90% CPU persistently\n- Critically low RAM (<500MB free) while idle\n\nRespond in exactly this JSON format (no markdown, no extra text):\n{\"noteworthy\": true/false, \"headline\": \"~60 char summary\", \"detail\": \"1-2 sentence explanation\"}\n\nIf nothing is concerning, set noteworthy to false with empty headline and detail.",
    );
    s
}

/// The text of an analysis answer to be read as JSON: its first text with
/// any code fences removed.
pub fn analysis_text(blocks: &Vec<ResponseBlock>) -> (r: String)
    ensures
        r@ == spec_strip_fences(
            match first_text(blocks@) {
                Some(t) => t,
                None => Seq::empty(),
            },
        ),
{
    let t = text_from_response(blocks);
    strip_markdown_fences(t.as_str())
}

/// The model that compresses older history.
pub fn context_summary_model() -> (r: String)
    ensures
        r@ == TITLE_MODEL@,
{
    owned(TITLE_MODEL)
}

/// A plain system prompt as a single text block.
pub fn system_text(s: &str) -> (r: Vec<SystemBlock>)
    ensures
        r@.len() == 1,
        r@[0].block_type@ == "text"@,
        r@[0].text@ == s@,
{
    vec![SystemBlock { block_type: owned("text"), text: owned(s) }]
}

/// What `strip_markdown_fences` gives: the trimmed text, and when it is
/// fenced by three backticks on both ends, what lies between the first line
/// and the closing fence, trimmed.
pub open spec fn spec_strip_fences(s: Seq<char>) -> Seq<char> {
    let t = trim(s);
    if starts_with(t, "```"@) && ends_with(t, "```"@) {
        let inner = t.subrange(3, t.len() as int);
        let inner = match find(inner, "\n"@) {
            Some(pos) => inner.subrange(pos + 1, inner.len() as int),
            None => inner,
        };
        let inner = if ends_with(inner, "```"@) {
            inner.subrange(0, inner.len() - 3)
        } else {
            inner
        };
        trim(inner)
    } else {
        t
    }
}

/// Strip markdown code fences (```json ... ```) from a model's answer.
pub fn strip_markdown_fences(s: &str) -> (r: String)
    ensures
        r@ == spec_strip_fences(s@),
{
    let v = chars_of(s);
    let (lo, hi) = trim_bounds(&v, 0, v.len());
    assert(v@.subrange(0, v@.len() as int) =~= v@);
    let t = slice_vec(&v, lo, hi);
    let fence = chars_of("```");
    proof {
        reveal_strlit("```");
        reveal_strlit("\n");
    }
    if starts_with_exec(&t, &fence) && ends_with_exec(&t, &fence) {
        let inner = slice_vec(&t, 3, t.len());
        let nl = chars_of("\n");
        let inner = match find_exec(&inner, &nl) {
            Some(pos) => slice_vec(&inner, pos + 1, inner.len()),
            None => inner,
        };
        let inner = if ends_with_exec(&inner, &fence) {
            slice_vec(&inner, 0, inner.len() - 3)
        } else {
            inner
        };
        let (a, b) = trim_bounds(&inner, 0, inner.len());
        assert(inner@.subrange(0, inner@.len() as int) =~= inner@);
        let out = slice_vec(&inner, a, b);
        string_of_all(&out)
    } else {
        string_of_all(&t)
    }
}

/// The reason phrase that `http` gives a status code, if it knows one.
pub uninterp spec fn status_reason(code: u16) -> Option<Seq<char>>;

/// Calls `reqwest::StatusCode::from_u16(code)` and its `canonical_reason`.
/// The phrase is named `status_reason` of the code; the table is not restated.
#[verifier::external_body]
fn canonical_reason(code: u16) -> (r: Option<String>)
    requires
        100 <= code <= 999,
    ensures
        r matches Some(s) ==> status_reason(code) == Some(s@),
        r is None ==> status_reason(code) is None,
{
    reqwest::StatusCode::from_u16(code).ok().and_then(|s| s.canonical_reason()).map(
        |t| t.to_string(),
    )
}

/// The reason phrase of a status code, or `<unknown status code>`.
pub fn status_reason_text(code: u16) -> (r: String)
    requires
        100 <= code <= 999,
    ensures
        r@ == (match status_reason(code) {
            Some(p) => p,
            None => "<unknown status code>"@,
        }),
{
    match canonical_reason(code) {
        Some(reason) => reason,
        None => owned("<unknown status code>"),
    }
}

/// How a status code prints: its number and its reason phrase.
pub open spec fn status_display(code: u16) -> Seq<char> {
    nat_decimal(code as nat) + " "@ + match status_reason(code) {
        Some(r) => r,
        None => "<unknown status code>"@,
    }
}

/// The message shown for a failed API request with `status` and `body`.
pub open spec fn spec_friendly_api_error(status: u16, body: Seq<char>) -> Seq<char> {
    if status == 401 {
        "Your API key is invalid or has been revoked. Please check it in Settings."@
    } else if status == 403 {
        "Your API key doesn't have permission for this request. Check your Anthropic account."@
    } else if status == 429 {
        "Too many requests — the model service is rate-limited. Wait a moment and try again."@
    } else if status == 500 || status == 502 || status == 503 {
        "The model service is having temporary issues. Please try again in a minute."@
    } else if status == 529 {
        "The model service is currently overloaded. Please try again in a few minutes."@
    } else {
        "Unexpected API error ("@ + status_display(status) + "): "@ + body
    }
}

/// Map an HTTP status code from the API to a user-friendly error message.
pub fn friendly_api_error(status: u16, body: &str) -> (r: String)
    requires
        100 <= status <= 999,
    ensures
        r@ == spec_friendly_api_error(status, body@),
{
    if status == 401 {
        owned("Your API key is invalid or has been revoked. Please check it in Settings.")
    } else if status == 403 {
        owned(
            "Your API key doesn't have permission for this request. Check your Anthropic account.",
        )
    } else if status == 429 {
        owned("Too many requests — the model service is rate-limited. Wait a moment and try again.")
    } else if status == 500 || status == 502 || status == 503 {
        owned("The model service is having temporary issues. Please try again in a minute.")
    } else if status == 529 {
        owned("The model service is currently overloaded. Please try again in a few minutes.")
    } else {
        let mut s = owned("Unexpected API error (");
        let code = u64_decimal(status as u64);
        push_str(&mut s, code.as_str());
        push_str(&mut s, " ");
        let reason = status_reason_text(status);
        push_str(&mut s, reason.as_str());
        push_str(&mut s, "): ");
        push_str(&mut s, body);
        s
    }
}

/// The phrases by which an error body reports an exceeded context window.
pub open spec fn context_limit_phrases() -> Seq<Seq<char>> {
    seq![
        "context window"@,
        "context_length"@,
        "prompt is too long"@,
        "prompt too long"@,
        "too many tokens"@,
        "input is too long"@,
        "maximum context length"@,
    ]
}

/// A 400 or 413 answer whose body, lowercased, names the context window.
pub open spec fn spec_is_context_limit_error(status: u16, body: Seq<char>) -> bool {
    (status == 400 || status == 413) && exists|i: int|
        0 <= i < context_limit_phrases().len() && contains(
            ascii_lower(body),
            #[trigger] context_limit_phrases()[i],
        )
}

/// Whether a failed request failed because the conversation is too long.
pub fn is_context_limit_error(status: u16, body: &str) -> (b: bool)
    ensures
        b == spec_is_context_limit_error(status, body@),
{
    if !(status == 400 || status == 413) {
        return false;
    }
    let lower = to_ascii_lowercase(body);
    let l = lower.as_str();
    let r = str_contains(l, "context window") || str_contains(l, "context_length")
        || str_contains(l, "prompt is too long") || str_contains(l, "prompt too long")
        || str_contains(l, "too many tokens") || str_contains(l, "input is too long")
        || str_contains(l, "maximum context length");
    proof {
        let ps = context_limit_phrases();
        if r {
            if contains(ascii_lower(body@), "context window"@) {
                assert(ps[0] == "context window"@);
            } else if contains(ascii_lower(body@), "context_length"@) {
                assert(ps[1] == "context_length"@);
            } else if contains(ascii_lower(body@), "prompt is too long"@) {
                assert(ps[2] == "prompt is too long"@);
            } else if contains(ascii_lower(body@), "prompt too long"@) {
                assert(ps[3] == "prompt too long"@);
            } else if contains(ascii_lower(body@), "too many tokens"@) {
                assert(ps[4] == "too many tokens"@);
            } else if contains(ascii_lower(body@), "input is too long"@) {
                assert(ps[5] == "input is too long"@);
            } else {
                assert(ps[6] == "maximum context length"@);
            }
        } else {
            assert forall|i: int| 0 <= i < ps.len() implies !contains(
                ascii_lower(body@),
                #[trigger] ps[i],
            ) by {
                if i == 0 {
                } else if i == 1 {
                } else if i == 2 {
                } else if i == 3 {
                } else if i == 4 {
                } else if i == 5 {
                } else {
                }
            }
        }
    }
    r
}

/// What a failed HTTP answer leads to within `send_message`.
#[derive(Debug, Clone, PartialEq, Eq)]
pub enum FailedAnswer {
    /// Wait and send again; the message is kept as the last error.
    Retry(String),
    /// Give up with this error message.
    Fail(String),
}

/// Whether an answer with this status is worth sending again.
pub open spec fn is_retryable(status: u16) -> bool {
    status == 429 || status == 500 || status == 502 || status == 503 || status == 529
}

/// What a failed answer (status and body) on attempt `attempt` leads to:
/// a context-limit error fails at once; a retryable status is retried until
/// the last attempt; anything else fails with the friendly message.
pub open spec fn spec_failed_answer(status: u16, body: Seq<char>, attempt: u32) -> (bool, Seq<char>) {
    if spec_is_context_limit_error(status, body) {
        (false, "Context limit exceeded: "@ + body)
    } else if !is_retryable(status) || attempt == MAX_RETRIES {
        (false, spec_friendly_api_error(status, body))
    } else {
        (true, spec_friendly_api_error(status, body))
    }
}

/// Decide what a failed answer leads to (see `spec_failed_answer`).
pub fn failed_answer(status: u16, body: &str, attempt: u32) -> (r: FailedAnswer)
    requires
        100 <= status <= 999,
    ensures
        spec_failed_answer(status, body@, attempt).0 <==> r is Retry,
        r matches FailedAnswer::Retry(m) ==> m@ == spec_failed_answer(status, body@, attempt).1,
        r matches FailedAnswer::Fail(m) ==> m@ == spec_failed_answer(status, body@, attempt).1,
{
    if is_context_limit_error(status, body) {
        let mut m = owned("Context limit exceeded: ");
        push_str(&mut m, body);
        return FailedAnswer::Fail(m);
    }
    let retryable = status == 429 || status == 500 || status == 502 || status == 503 || status
        == 529;
    let friendly = friendly_api_error(status, body);
    if !retryable || attempt == MAX_RETRIES {
        FailedAnswer::Fail(friendly)
    } else {
        FailedAnswer::Retry(friendly)
    }
}

/// The message for a request that never got an answer.
pub fn network_error_message(timed_out: bool) -> (r: &'static str)
    ensures
        r@ == (if timed_out {
            "The model service is taking too long to respond. Please try again."@
        } else {
            "Can't reach the model service — check your internet connection."@
        }),
{
    if timed_out {
        "The model service is taking too long to respond. Please try again."
    } else {
        "Can't reach the model service — check your internet connection."
    }
}

/// The wait before attempt `attempt` (from 1): 1, 2, 4 seconds.
pub fn retry_delay_secs(attempt: u32) -> (r: u64)
    requires
        1 <= attempt <= MAX_RETRIES,
    ensures
        attempt == 1 ==> r == 1,
        attempt == 2 ==> r == 2,
        attempt == 3 ==> r == 4,
{
    if attempt == 1 {
        1
    } else if attempt == 2 {
        2
    } else {
        4
    }
}

/// A request that did not succeed: it never got an answer (timed out or
/// not), or it was answered with a status that is not a success.
#[derive(Debug)]
pub enum FailedPost {
    Unreachable { timed_out: bool },
    Answer { status: u16, body: String },
}

/// What the request loop does after a failed attempt.
#[derive(Debug, PartialEq, Eq)]
pub enum PostStep {
    /// Wait `wait_secs`, then send again; `error` is the error so far.
    Retry { error: String, wait_secs: u64 },
    /// Give up with this error.
    Fail(String),
}

/// After a failed attempt `attempt` (from 0): whether the loop sends again,
/// and the error message that stands. An unanswered request is sent again
/// until the last attempt; an answer goes by `spec_failed_answer`.
pub open spec fn spec_post_step(post: FailedPost, attempt: u32) -> (bool, Seq<char>) {
    match post {
        FailedPost::Unreachable { timed_out } => (
            attempt < MAX_RETRIES,
            if timed_out {
                "The model service is taking too long to respond. Please try again."@
            } else {
                "Can't reach the model service — check your internet connection."@
            },
        ),
        FailedPost::Answer { status, body } => spec_failed_answer(status, body@, attempt),
    }
}

/// The step of the request loop after failed attempt `attempt` (see
/// `spec_post_step`); a retry waits as long as `retry_delay_secs` says for
/// the next attempt.
pub fn post_step(post: &FailedPost, attempt: u32) -> (r: PostStep)
    requires
        attempt <= MAX_RETRIES,
        post matches FailedPost::Answer { status, .. } ==> 100 <= *status <= 999,
    ensures
        r is Retry <==> spec_post_step(*post, attempt).0,
        r matches PostStep::Retry { error, wait_secs } ==> error@ == spec_post_step(*post, attempt).1
            && (attempt + 1 == 1 ==> wait_secs == 1) && (attempt + 1 == 2 ==> wait_secs == 2)
            && (attempt + 1 == 3 ==> wait_secs == 4),
        r matches PostStep::Fail(m) ==> m@ == spec_post_step(*post, attempt).1,
{
    let (retry, error) = match post {
        FailedPost::Unreachable { timed_out } => (attempt < MAX_RETRIES, owned(network_error_message(*timed_out))),
        FailedPost::Answer { status, body } => match failed_answer(*status, body.as_str(), attempt) {
            FailedAnswer::Retry(m) => (true, m),
            FailedAnswer::Fail(m) => (false, m),
        },
    };
    if retry {
        PostStep::Retry { error, wait_secs: retry_delay_secs(attempt + 1) }
    } else {
        PostStep::Fail(error)
    }
}

/// The trimmed text of the first text block of a response.
pub open spec fn first_text(blocks: Seq<ResponseBlock>) -> Option<Seq<char>>
    decreases blocks.len(),
{
    if blocks.len() == 0 {
        None
    } else {
        match blocks[0] {
            ResponseBlock::Text { text } => Some(trim(text@)),
            _ => first_text(blocks.drop_first()),
        }
    }
}

/// The trimmed text of the first text block of a response, if any.
pub fn first_text_of(blocks: &Vec<ResponseBlock>) -> (r: Option<String>)
    ensures
        r matches Some(s) ==> first_text(blocks@) == Some(s@),
        r is None ==> first_text(blocks@) is None,
{
    let mut i: usize = 0;
    assert(blocks@.subrange(0, blocks@.len() as int) =~= blocks@);
    while i < blocks.len()
        invariant
            i <= blocks@.len(),
            first_text(blocks@) == first_text(blocks@.subrange(i as int, blocks@.len() as int)),
        decreases blocks@.len() - i,
    {
        let ghost rest = blocks@.subrange(i as int, blocks@.len() as int);
        assert(rest[0] == blocks@[i as int]);
        assert(rest.drop_first() =~= blocks@.subrange(i + 1, blocks@.len() as int));
        match &blocks[i] {
            ResponseBlock::Text { text } => {
                let v = chars_of(text.as_str());
                let (a, b) = trim_bounds(&v, 0, v.len());
                assert(v@.subrange(0, v@.len() as int) =~= v@);
                let t = slice_vec(&v, a, b);
                return Some(string_of_all(&t));
            },
            _ => {},
        }
        i += 1;
    }
    None
}

/// The first `n` characters of `s`.
pub fn prefix_chars(s: &str, n: usize) -> (r: String)
    ensures
        r@ == s@.take(if n < s@.len() { n as int } else { s@.len() as int }),
{
    let v = chars_of(s);
    let k = if n < v.len() { n } else { v.len() };
    let t = slice_vec(&v, 0, k);
    string_of_all(&t)
}

/// A session title from a title response: its first text, else the first
/// 60 characters of the user's message.
pub fn title_from_response(blocks: &Vec<ResponseBlock>, user_message: &str) -> (r: String)
    ensures
        r@ == (match first_text(blocks@) {
            Some(t) => t,
            None => user_message@.take(
                if 60 < user_message@.len() { 60 } else { user_message@.len() as int },
            ),
        }),
{
    match first_text_of(blocks) {
        Some(t) => t,
        None => prefix_chars(user_message, 60),
    }
}

/// A session summary from a summary response: its first text, else a
/// generic sentence.
pub fn summary_from_response(blocks: &Vec<ResponseBlock>) -> (r: String)
    ensures
        r@ == (match first_text(blocks@) {
            Some(t) => t,
            None => "Session completed."@,
        }),
{
    match first_text_of(blocks) {
        Some(t) => t,
        None => owned("Session completed."),
    }
}

/// The text of a compression or analysis response: its first text, else empty.
pub fn text_from_response(blocks: &Vec<ResponseBlock>) -> (r: String)
    ensures
        r@ == (match first_text(blocks@) {
            Some(t) => t,
            None => Seq::empty(),
        }),
{
    match first_text_of(blocks) {
        Some(t) => t,
        None => String::new(),
    }
}

impl AuthMode {
    /// Whether requests can be authenticated: always with a local server
    /// override, else when the key or token is not empty.
    pub fn has_auth(&self, local_server: bool) -> (b: bool)
        ensures
            b == (local_server || match self {
                AuthMode::ApiKey(k) => k@.len() > 0,
                AuthMode::Proxy { token, .. } => token@.len() > 0,
            }),
    {
        if local_server {
            return true;
        }
        match self {
            AuthMode::ApiKey(k) => k.as_str().unicode_len() > 0,
            AuthMode::Proxy { token, .. } => token.as_str().unicode_len() > 0,
        }
    }

    /// The name of the mode.
    pub fn mode_name(&self) -> (r: &'static str)
        ensures
            r@ == (match self {
                AuthMode::ApiKey(_) => "api_key"@,
                AuthMode::Proxy { .. } => "proxy"@,
            }),
    {
        match self {
            AuthMode::ApiKey(_) => "api_key",
            AuthMode::Proxy { .. } => "proxy",
        }
    }

    /// The messages endpoint: the local override or the proxy's base URL
    /// (without trailing slashes) followed by `/v1/messages`, else the API's.
    pub fn api_url(&self, local_server: Option<&str>) -> (r: String)
        ensures
            r@ == (match local_server {
                Some(u) => without_trailing_slashes(u@) + "/v1/messages"@,
                None => match self {
                    AuthMode::ApiKey(_) => ANTHROPIC_API_URL@,
                    AuthMode::Proxy { base_url, .. } => without_trailing_slashes(base_url@)
                        + "/v1/messages"@,
                },
            }),
    {
        match local_server {
            Some(u) => {
                let mut s = strip_trailing_slashes(u);
                push_str(&mut s, "/v1/messages");
                s
            },
            None => match self {
                AuthMode::ApiKey(_) => owned(ANTHROPIC_API_URL),
                AuthMode::Proxy { base_url, .. } => {
                    let mut s = strip_trailing_slashes(base_url.as_str());
                    push_str(&mut s, "/v1/messages");
                    s
                },
            },
        }
    }
}

/// `s` without the slashes at its end (`trim_end_matches('/')`).
pub open spec fn without_trailing_slashes(s: Seq<char>) -> Seq<char>
    decreases s.len(),
{
    if s.len() > 0 && s.last() == '/' {
        without_trailing_slashes(s.drop_last())
    } else {
        s
    }
}

/// `s` without the slashes at its end.
pub fn strip_trailing_slashes(s: &str) -> (r: String)
    ensures
        r@ == without_trailing_slashes(s@),
{
    let v = chars_of(s);
    let mut n = v.len();
    assert(v@.subrange(0, v@.len() as int) =~= v@);
    while n > 0 && v[n - 1] == '/'
        invariant
            n <= v@.len(),
            without_trailing_slashes(v@) == without_trailing_slashes(v@.subrange(0, n as int)),
        decreases n,
    {
        assert(v@.subrange(0, n as int).drop_last() =~= v@.subrange(0, n - 1));
        n -= 1;
    }
    let t = slice_vec(&v, 0, n);
    string_of_all(&t)
}

/// The credentials the app starts with: the proxy configuration when it
/// names a base URL and a non-empty token; else the API key file's key
/// (trimmed) when not blank; else the environment's key (empty without one).
pub open spec fn spec_load_auth(
    proxy: Option<Json>,
    key_file: Option<Seq<char>>,
    env_key: Option<Seq<char>>,
    r: AuthMode,
) -> bool {
    let proxy_pair = match proxy {
        Some(p) => match (crate::json::str_field(p, "base_url"@), crate::json::str_field(p, "token"@)) {
            (Some(b), Some(t)) => if t.len() > 0 {
                Some((b, t))
            } else {
                None
            },
            _ => None,
        },
        None => None,
    };
    match proxy_pair {
        Some((b, t)) => r matches AuthMode::Proxy { base_url, token } && base_url@ == b && token@
            == t,
        None => r matches AuthMode::ApiKey(k) && k@ == (match key_file {
            Some(f) => if trim(f).len() > 0 {
                trim(f)
            } else {
                match env_key {
                    Some(e) => e,
                    None => Seq::empty(),
                }
            },
            None => match env_key {
                Some(e) => e,
                None => Seq::empty(),
            },
        }),
    }
}

/// Choose the credentials from the proxy configuration (as parsed JSON), the
/// API key file's text and the environment's key, each when present: the
/// proxy when it names a base URL and a non-empty token, else the trimmed key
/// file when it is not blank, else the environment's key (empty without one).
pub fn choose_auth(proxy: Option<&Json>, key_file: Option<&str>, env_key: Option<&str>) -> (r: AuthMode)
    ensures
        spec_load_auth(
            match proxy {
                Some(p) => Some(*p),
                None => None,
            },
            match key_file {
                Some(f) => Some(f@),
                None => None,
            },
            match env_key {
                Some(e) => Some(e@),
                None => None,
            },
            r,
        ),
{
    match proxy {
        Some(p) => match (p.str_field("base_url"), p.str_field("token")) {
            (Some(b), Some(t)) => if t.unicode_len() > 0 {
                return AuthMode::Proxy { base_url: owned(b), token: owned(t) };
            },
            _ => {},
        },
        None => {},
    }
    match key_file {
        Some(f) => {
            let k = crate::text::trimmed(f);
            if k.as_str().unicode_len() > 0 {
                return AuthMode::ApiKey(k);
            }
        },
        None => {},
    }
    match env_key {
        Some(e) => AuthMode::ApiKey(owned(e)),
        None => AuthMode::ApiKey(String::new()),
    }
}

/// Choose the credentials from the text of the proxy configuration file, the
/// API key file's text and the environment's key, each when present (see
/// `choose_auth`); proxy text that is not JSON counts as no proxy.
pub fn load_auth(proxy_text: Option<&str>, key_file: Option<&str>, env_key: Option<&str>) -> (r: AuthMode)
    ensures
        spec_load_auth(
            match proxy_text {
                Some(t) => parsed_json(t@),
                None => None,
            },
            match key_file {
                Some(f) => Some(f@),
                None => None,
            },
            match env_key {
                Some(e) => Some(e@),
                None => None,
            },
            r,
        ),
{
    let proxy = match proxy_text {
        Some(t) => crate::json::parse_json(t),
        None => None,
    };
    match &proxy {
        Some(p) => choose_auth(Some(p), key_file, env_key),
        None => choose_auth(None, key_file, env_key),
    }
}

/// The proxy configuration as saved: `{"base_url": ..., "token": ...}`.
pub fn proxy_config_json(base_url: &str, token: &str) -> (r: Json)
    ensures
        r is Object,
        r->Object_0@.len() == 2,
        r->Object_0@[0].0@ == "base_url"@,
        r->Object_0@[0].1 matches Json::Str(b) && b@ == base_url@,
        r->Object_0@[1].0@ == "token"@,
        r->Object_0@[1].1 matches Json::Str(t) && t@ == token@,
{
    Json::Object(
        vec![
            (owned("base_url"), Json::Str(owned(base_url))),
            (owned("token"), Json::Str(owned(token))),
        ],
    )
}

/// The description of the machine for the system prompt: the machine
/// context, and the system snapshot on the next line when there is one.
pub fn os_context(machine: &str, snapshot: &str) -> (r: String)
    ensures
        r@ == (if snapshot@.len() == 0 {
            machine@
        } else {
            machine@ + "\n"@ + snapshot@
        }),
{
    let mut s = owned(machine);
    if snapshot.unicode_len() > 0 {
        push_str(&mut s, "\n");
        push_str(&mut s, snapshot);
    }
    s
}

} // verus!
