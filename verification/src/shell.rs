//! Shell command safety checks and output formatting shared by the platform tools.
use vstd::prelude::*;
use vstd::string::StringSliceAdditionalSpecFns;

use crate::text::{
    ascii_lower, chars_of, contains, contains_exec, i64_decimal, int_decimal, is_ws, is_ws_char,
    nat_decimal, owned, push_str, starts_with, starts_with_exec, string_of, to_ascii_lowercase,
    case_fold, lower_case, trim_start, u64_decimal,
};

verus! {

/// The operating system whose rules apply.
#[derive(Debug, Clone, Copy, PartialEq, Eq, Structural)]
pub enum TargetOs {
    MacOs,
    Windows,
    Linux,
    Other,
}

/// How much care a tool call needs before it runs.
#[derive(Debug, Clone, Copy, PartialEq, Eq, Structural)]
pub enum SafetyTier {
    /// Only reads state.
    ReadOnly,
    /// Changes state in a way that is safe to run without asking.
    SafeAction,
    /// Must be approved by the user first.
    NeedsApproval,
}

/// Maximum characters of shell output to return.
pub const MAX_OUTPUT_CHARS: usize = 10000;

/// Timeout for shell commands, in seconds.
pub const TIMEOUT_SECS: u64 = 60;

/// Dangerous patterns on every platform.
pub open spec fn common_patterns() -> Seq<Seq<char>> {
    seq![
        "rm "@, "rm\t"@, "rmdir "@, "sudo "@, "dd "@, "mkfs"@, "shutdown"@, "reboot"@, "halt"@,
        "poweroff"@, "> /dev/"@, "chmod -R"@, "chmod 777"@, "chown -R"@, "| sh"@, "| bash"@,
        "killall "@, "pkill "@, "truncate "@,
    ]
}

/// Dangerous patterns of one platform.
pub open spec fn platform_patterns(os: TargetOs) -> Seq<Seq<char>> {
    match os {
        TargetOs::MacOs => seq![
            "diskutil erase"@, "diskutil partitionDisk"@, "| zsh"@, "launchctl unload"@,
        ],
        TargetOs::Windows => seq![
            "del "@, "del\t"@, "rd "@, "rd\t"@, "runas "@, "format "@, "diskpart"@, "bcdedit"@,
            "reg delete"@, "icacls"@, "| cmd"@, "| powershell"@, "remove-item"@,
            "stop-computer"@, "restart-computer"@, "taskkill /im *"@,
        ],
        TargetOs::Linux => seq!["systemctl disable"@, "systemctl mask"@],
        TargetOs::Other => seq![],
    }
}

/// `lower` begins with the bare command `cmd` (followed by a space or tab, or alone).
pub open spec fn bare_command(lower: Seq<char>, cmd: Seq<char>) -> bool {
    ||| starts_with(lower, cmd + seq![' '])
    ||| starts_with(lower, cmd + seq!['\t'])
    ||| lower == cmd
}

/// Some pattern of the list, lower-cased, occurs in `lower`.
pub open spec fn matches_any(lower: Seq<char>, patterns: Seq<Seq<char>>) -> bool {
    exists|i: int| 0 <= i < patterns.len() && contains(lower, case_fold(#[trigger] patterns[i]))
}

/// Whether a command counts as dangerous on `os`, given its lower-cased text.
pub open spec fn dangerous_lower(lower: Seq<char>, os: TargetOs) -> bool {
    ||| bare_command(lower, "rm"@)
    ||| (os == TargetOs::Windows && (bare_command(lower, "del"@) || bare_command(lower, "rd"@)))
    ||| matches_any(lower, common_patterns())
    ||| matches_any(lower, platform_patterns(os))
}

/// Whether `command` counts as dangerous on `os`.
pub open spec fn spec_is_dangerous(command: Seq<char>, os: TargetOs) -> bool {
    dangerous_lower(case_fold(command), os)
}

fn common_pattern_list() -> (v: Vec<&'static str>)
    ensures
        v@.len() == common_patterns().len(),
        forall|i: int| 0 <= i < v@.len() ==> (#[trigger] v@[i])@ == common_patterns()[i],
{
    vec![
        "rm ", "rm\t", "rmdir ", "sudo ", "dd ", "mkfs", "shutdown", "reboot", "halt",
        "poweroff", "> /dev/", "chmod -R", "chmod 777", "chown -R", "| sh", "| bash",
        "killall ", "pkill ", "truncate ",
    ]
}

fn platform_pattern_list(os: TargetOs) -> (v: Vec<&'static str>)
    ensures
        v@.len() == platform_patterns(os).len(),
        forall|i: int| 0 <= i < v@.len() ==> (#[trigger] v@[i])@ == platform_patterns(os)[i],
{
    match os {
        TargetOs::MacOs => vec![
            "diskutil erase", "diskutil partitionDisk", "| zsh", "launchctl unload",
        ],
        TargetOs::Windows => vec![
            "del ", "del\t", "rd ", "rd\t", "runas ", "format ", "diskpart", "bcdedit",
            "reg delete", "icacls", "| cmd", "| powershell", "remove-item", "stop-computer",
            "restart-computer", "taskkill /im *",
        ],
        TargetOs::Linux => vec!["systemctl disable", "systemctl mask"],
        TargetOs::Other => vec![],
    }
}

fn bare_command_exec(lower: &Vec<char>, cmd: &str) -> (b: bool)
    ensures
        b == bare_command(lower@, cmd@),
{
    let mut with_space = owned(cmd);
    with_space.push(' ');
    let mut with_tab = owned(cmd);
    with_tab.push('\t');
    assert(with_space@ =~= cmd@ + seq![' ']);
    assert(with_tab@ =~= cmd@ + seq!['\t']);
    let sp = chars_of(with_space.as_str());
    let tb = chars_of(with_tab.as_str());
    let c = chars_of(cmd);
    let a = starts_with_exec(lower, &sp);
    let b = starts_with_exec(lower, &tb);
    let eq = lower.len() == c.len() && starts_with_exec(lower, &c);
    assert(eq == (lower@ == cmd@)) by {
        if lower@.len() == c@.len() {
            assert(lower@.subrange(0, c@.len() as int) =~= lower@);
        }
    }
    a || b || eq
}

fn matches_any_exec(lower: &Vec<char>, patterns: &Vec<&'static str>, Ghost(spec_pats): Ghost<
    Seq<Seq<char>>,
>) -> (b: bool)
    requires
        patterns@.len() == spec_pats.len(),
        forall|i: int| 0 <= i < patterns@.len() ==> (#[trigger] patterns@[i])@ == spec_pats[i],
    ensures
        b == matches_any(lower@, spec_pats),
{
    let mut i: usize = 0;
    while i < patterns.len()
        invariant
            i <= patterns@.len(),
            patterns@.len() == spec_pats.len(),
            forall|j: int| 0 <= j < patterns@.len() ==> (#[trigger] patterns@[j])@ == spec_pats[j],
            forall|j: int| 0 <= j < i ==> !contains(lower@, case_fold(#[trigger] spec_pats[j])),
        decreases patterns@.len() - i,
    {
        let p = lower_case(patterns[i]);
        let pv = chars_of(p.as_str());
        if contains_exec(lower, &pv) {
            assert(contains(lower@, case_fold(spec_pats[i as int])));
            return true;
        }
        i += 1;
    }
    false
}

/// Returns `true` if the command matches any dangerous pattern of `os`.
///
/// The command is lower-cased first; it is dangerous when it is a bare `rm`
/// (on Windows also `del` or `rd`), or when it contains one of the common or
/// platform patterns, each lower-cased.
pub fn is_dangerous_command(command: &str, os: TargetOs) -> (b: bool)
    ensures
        b == spec_is_dangerous(command@, os),
{
    let lower = lower_case(command);
    is_dangerous_lowered(lower.as_str(), os)
}

/// Whether an already lower-cased command counts as dangerous on `os` (see
/// `dangerous_lower`).
pub fn is_dangerous_lowered(lower_s: &str, os: TargetOs) -> (b: bool)
    ensures
        b == dangerous_lower(lower_s@, os),
{
    let lower = chars_of(lower_s);
    if bare_command_exec(&lower, "rm") {
        return true;
    }
    if os == TargetOs::Windows {
        if bare_command_exec(&lower, "del") {
            return true;
        }
        if bare_command_exec(&lower, "rd") {
            return true;
        }
    }
    let common = common_pattern_list();
    if matches_any_exec(&lower, &common, Ghost(common_patterns())) {
        return true;
    }
    let platform = platform_pattern_list(os);
    matches_any_exec(&lower, &platform, Ghost(platform_patterns(os)))
}

/// The safety tier of a shell command: it needs approval exactly when a
/// command is given and it is dangerous on `os`; otherwise it is a safe action.
pub fn shell_run_tier_for_input(command: Option<&str>, os: TargetOs) -> (t: SafetyTier)
    ensures
        t == (match command {
            Some(c) => if spec_is_dangerous(c@, os) {
                SafetyTier::NeedsApproval
            } else {
                SafetyTier::SafeAction
            },
            None => SafetyTier::SafeAction,
        }),
{
    match command {
        Some(c) => {
            if is_dangerous_command(c, os) {
                SafetyTier::NeedsApproval
            } else {
                SafetyTier::SafeAction
            }
        },
        None => SafetyTier::SafeAction,
    }
}

/// What `format_shell_output` produces.
pub open spec fn spec_format_shell_output(stdout: Seq<char>, stderr: Seq<char>, exit_code: int) -> Seq<
    char,
> {
    let joined = if stderr.len() == 0 {
        stdout
    } else if stdout.len() == 0 {
        stderr
    } else {
        stdout + "\n--- stderr ---\n"@ + stderr
    };
    if joined.len() == 0 {
        "(no output, exit code: "@ + int_decimal(exit_code) + ")"@
    } else {
        joined + "\n\n[exit code: "@ + int_decimal(exit_code) + "]"@
    }
}

/// Format shell command output (stdout + stderr + exit code) into a single string.
pub fn format_shell_output(stdout: &str, stderr: &str, exit_code: i32) -> (r: String)
    ensures
        r@ == spec_format_shell_output(stdout@, stderr@, exit_code as int),
{
    let mut result = String::new();
    if !stdout.is_empty() {
        push_str(&mut result, stdout);
    }
    if !stderr.is_empty() {
        if !stdout.is_empty() {
            push_str(&mut result, "\n--- stderr ---\n");
        }
        push_str(&mut result, stderr);
    }
    assert(result@.len() == 0 <==> stdout@.len() == 0 && stderr@.len() == 0);
    let code = i64_decimal(exit_code as i64);
    if stdout.is_empty() && stderr.is_empty() {
        let mut r = owned("(no output, exit code: ");
        push_str(&mut r, code.as_str());
        push_str(&mut r, ")");
        assert(r@ =~= spec_format_shell_output(stdout@, stderr@, exit_code as int));
        r
    } else {
        let ghost joined = result@;
        push_str(&mut result, "\n\n[exit code: ");
        push_str(&mut result, code.as_str());
        push_str(&mut result, "]");
        assert(joined =~= (if stderr@.len() == 0 {
            stdout@
        } else if stdout@.len() == 0 {
            stderr@
        } else {
            stdout@ + "\n--- stderr ---\n"@ + stderr@
        }));
        assert(result@ =~= spec_format_shell_output(stdout@, stderr@, exit_code as int));
        result
    }
}

/// The note appended to truncated output.
pub open spec fn truncation_note() -> Seq<char> {
    "...\n\n(output truncated at "@ + nat_decimal(MAX_OUTPUT_CHARS as nat) + " chars)"@
}

/// What `truncate_output` gives: output of at most `MAX_OUTPUT_CHARS`
/// characters unchanged; longer output cut to its first `MAX_OUTPUT_CHARS`
/// characters, followed by the truncation note.
pub open spec fn spec_truncated(output: Seq<char>) -> Seq<char> {
    if output.len() > MAX_OUTPUT_CHARS {
        output.take(MAX_OUTPUT_CHARS as int) + truncation_note()
    } else {
        output
    }
}

/// Truncate output to `MAX_OUTPUT_CHARS` characters with a warning suffix
/// (see `spec_truncated`); any text is accepted.
pub fn truncate_output(output: &str) -> (r: String)
    ensures
        r@ == spec_truncated(output@),
{
    let v = crate::text::chars_of(output);
    if v.len() > MAX_OUTPUT_CHARS {
        let head = crate::text::slice_vec(&v, 0, MAX_OUTPUT_CHARS);
        let mut r = crate::text::string_of_all(&head);
        push_str(&mut r, "...\n\n(output truncated at ");
        let n = u64_decimal(MAX_OUTPUT_CHARS as u64);
        push_str(&mut r, n.as_str());
        push_str(&mut r, " chars)");
        assert(r@ =~= output@.take(MAX_OUTPUT_CHARS as int) + truncation_note());
        r
    } else {
        owned(output)
    }
}

// ── PowerShell flag stripping ──────────────────────────────────────────

/// The first white-space position in `s`, or its length.
pub open spec fn ws_end(s: Seq<char>) -> int
    decreases s.len(),
{
    if s.len() == 0 {
        0
    } else if is_ws(s[0]) {
        0
    } else {
        1 + ws_end(s.drop_first())
    }
}

/// Flags that the command line supplies itself and are dropped.
pub open spec fn known_flag(flag: Seq<char>) -> bool {
    ||| starts_with(flag, "command"@)
    ||| starts_with(flag, "nologo"@)
    ||| starts_with(flag, "noprofile"@)
    ||| starts_with(flag, "noninteractive"@)
}

/// A PowerShell script with its leading invocation flags removed.
pub open spec fn spec_strip_powershell_flags(s: Seq<char>) -> Seq<char>
    decreases s.len(),
{
    let t = trim_start(s);
    if t.len() > 0 && t[0] == '-' {
        let rest = t.drop_first();
        let end = ws_end(rest);
        let flag = ascii_lower(rest.subrange(0, end));
        if known_flag(flag) {
            proof {
                lemma_trim_start_len(s);
                lemma_ws_end_bound(rest);
            }
            spec_strip_powershell_flags(rest.subrange(end, rest.len() as int))
        } else if starts_with(flag, "executionpolicy"@) {
            let u = trim_start(rest.subrange(end, rest.len() as int));
            proof {
                lemma_trim_start_len(s);
                lemma_ws_end_bound(rest);
                lemma_trim_start_len(rest.subrange(end, rest.len() as int));
                lemma_ws_end_bound(u);
            }
            spec_strip_powershell_flags(u.subrange(ws_end(u), u.len() as int))
        } else {
            t
        }
    } else {
        t
    }
}

/// `trim_start` never lengthens a sequence and keeps a suffix.
pub proof fn lemma_trim_start_len(s: Seq<char>)
    ensures
        trim_start(s).len() <= s.len(),
        trim_start(s) == s.subrange(s.len() - trim_start(s).len(), s.len() as int),
    decreases s.len(),
{
    if s.len() > 0 && is_ws(s[0]) {
        lemma_trim_start_len(s.drop_first());
        assert(s.drop_first().subrange(
            s.drop_first().len() - trim_start(s).len(),
            s.drop_first().len() as int,
        ) =~= s.subrange(s.len() - trim_start(s).len(), s.len() as int));
    } else {
        assert(s.subrange(0, s.len() as int) =~= s);
    }
}

/// `ws_end` lies within the sequence and stops at white space.
pub proof fn lemma_ws_end_bound(s: Seq<char>)
    ensures
        0 <= ws_end(s) <= s.len(),
        forall|k: int| 0 <= k < ws_end(s) ==> !is_ws(#[trigger] s[k]),
        ws_end(s) < s.len() ==> is_ws(s[ws_end(s)]),
    decreases s.len(),
{
    if s.len() > 0 && !is_ws(s[0]) {
        lemma_ws_end_bound(s.drop_first());
        assert forall|k: int| 0 <= k < ws_end(s) implies !is_ws(#[trigger] s[k]) by {
            if k > 0 {
                assert(s[k] == s.drop_first()[k - 1]);
            }
        }
    }
}

fn trim_start_from(v: &Vec<char>, from: usize) -> (r: usize)
    requires
        from <= v.len(),
    ensures
        from <= r <= v.len(),
        v@.subrange(r as int, v.len() as int) == trim_start(v@.subrange(from as int, v.len() as int)),
{
    let ghost s = v@.subrange(from as int, v.len() as int);
    let mut i = from;
    while i < v.len() && is_ws_char(v[i])
        invariant
            from <= i <= v.len(),
            s == v@.subrange(from as int, v.len() as int),
            trim_start(s) == trim_start(v@.subrange(i as int, v.len() as int)),
        decreases v.len() - i,
    {
        let ghost cur = v@.subrange(i as int, v.len() as int);
        assert(cur.drop_first() =~= v@.subrange(i + 1, v.len() as int));
        i += 1;
    }
    let ghost fin = v@.subrange(i as int, v.len() as int);
    assert(trim_start(fin) == fin) by {
        if fin.len() > 0 {
            assert(fin[0] == v@[i as int]);
        }
    }
    i
}

fn ws_end_from(v: &Vec<char>, from: usize) -> (r: usize)
    requires
        from <= v.len(),
    ensures
        from <= r <= v.len(),
        r - from == ws_end(v@.subrange(from as int, v.len() as int)),
{
    let mut i = from;
    while i < v.len() && !is_ws_char(v[i])
        invariant
            from <= i <= v.len(),
            ws_end(v@.subrange(from as int, v.len() as int)) == (i - from) + ws_end(
                v@.subrange(i as int, v.len() as int),
            ),
        decreases v.len() - i,
    {
        let ghost cur = v@.subrange(i as int, v.len() as int);
        assert(cur.drop_first() =~= v@.subrange(i + 1, v.len() as int));
        i += 1;
    }
    i
}

fn lower_range(v: &Vec<char>, lo: usize, hi: usize) -> (w: Vec<char>)
    requires
        lo <= hi <= v.len(),
    ensures
        w@ == ascii_lower(v@.subrange(lo as int, hi as int)),
{
    let s = string_of(v, lo, hi);
    let l = to_ascii_lowercase(s.as_str());
    chars_of(l.as_str())
}

/// Strips leading PowerShell invocation flags (`-Command`, `-NoLogo`,
/// `-NoProfile`, `-NonInteractive`, and `-ExecutionPolicy` with its value)
/// from a script, stopping at the first other token.
pub fn strip_powershell_flags(s: &str) -> (r: String)
    ensures
        r@ == spec_strip_powershell_flags(s@),
{
    let v = chars_of(s);
    let mut pos: usize = 0;
    let command = chars_of("command");
    let nologo = chars_of("nologo");
    let noprofile = chars_of("noprofile");
    let noninteractive = chars_of("noninteractive");
    let execpol = chars_of("executionpolicy");
    assert(v@.subrange(0, v@.len() as int) =~= s@);
    loop
        invariant
            pos <= v.len(),
            v@ == s@,
            command@ == "command"@,
            nologo@ == "nologo"@,
            noprofile@ == "noprofile"@,
            noninteractive@ == "noninteractive"@,
            execpol@ == "executionpolicy"@,
            spec_strip_powershell_flags(s@) == spec_strip_powershell_flags(
                v@.subrange(pos as int, v.len() as int),
            ),
        decreases v.len() - pos,
    {
        let ghost cur = v@.subrange(pos as int, v.len() as int);
        let t = trim_start_from(&v, pos);
        let ghost tt = v@.subrange(t as int, v.len() as int);
        if t < v.len() && v[t] == '-' {
            let ghost rest = tt.drop_first();
            assert(rest =~= v@.subrange(t + 1, v.len() as int));
            let end = ws_end_from(&v, t + 1);
            let flag = lower_range(&v, t + 1, end);
            assert(flag@ == ascii_lower(rest.subrange(0, end - (t + 1)))) by {
                assert(rest.subrange(0, end - (t + 1)) =~= v@.subrange(t + 1, end as int));
            }
            if starts_with_exec(&flag, &command) || starts_with_exec(&flag, &nologo)
                || starts_with_exec(&flag, &noprofile) || starts_with_exec(&flag, &noninteractive) {
                assert(rest.subrange(end - (t + 1), rest.len() as int) =~= v@.subrange(
                    end as int,
                    v.len() as int,
                ));
                pos = end;
            } else if starts_with_exec(&flag, &execpol) {
                assert(rest.subrange(end - (t + 1), rest.len() as int) =~= v@.subrange(
                    end as int,
                    v.len() as int,
                ));
                let u = trim_start_from(&v, end);
                let ghost uu = v@.subrange(u as int, v.len() as int);
                let val_end = ws_end_from(&v, u);
                assert(uu.subrange(val_end - u, uu.len() as int) =~= v@.subrange(
                    val_end as int,
                    v.len() as int,
                ));
                pos = val_end;
            } else {
                return string_of(&v, t, v.len());
            }
        } else {
            return string_of(&v, t, v.len());
        }
    }
}

} // verus!
