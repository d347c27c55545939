//! The text that platform tools make of what their commands printed: the
//! package listing of the Linux app list, the printer and print-queue
//! listings, the memory figures of `/proc/meminfo`, and the plan and report
//! of clearing a Windows app's cache.
use vstd::prelude::*;

use crate::json::Json;
use crate::text::{
    contains, str_contains, trimmed, parse_u64, parse_u64_text, second_word, skip_ws, starts_with,
    starts_with_exec, trim_start, ws_from, ws_from_exec,
    chars_of, joined, lines, lines_of, nat_decimal, owned, push_str, string_of_all, trim, trim_bounds,
    slice_vec, u64_decimal,
};
use vstd::string::StrSliceExecFns;

verus! {

/// `n - k`, or 0 when `k` is larger.
pub open spec fn sat_sub(n: int, k: int) -> nat {
    if n > k {
        (n - k) as nat
    } else {
        0
    }
}

/// The dpkg section: its package count (lines less the five header lines),
/// and its first 30 lines when it is longer than that.
pub open spec fn dpkg_section(out: Seq<char>) -> Seq<char> {
    let ls = lines(out);
    let count = sat_sub(ls.len() as int, 5);
    if ls.len() > 30 {
        "=== dpkg ("@ + nat_decimal(count) + " packages) ===\n"@ + joined(ls.take(30), "\n"@)
            + "\n... ("@ + nat_decimal(sat_sub(count as int, 25))
            + " more, use shell_run 'dpkg --list' for full output)"@
    } else {
        "=== dpkg ("@ + nat_decimal(count) + " packages) ===\n"@ + out
    }
}

/// The rpm section: its package count, and its first 50 lines when it is
/// longer than that.
pub open spec fn rpm_section(out: Seq<char>) -> Seq<char> {
    let ls = lines(out);
    if ls.len() > 50 {
        "=== rpm ("@ + nat_decimal(ls.len()) + " packages) ===\n"@ + joined(ls.take(50), "\n"@)
            + "\n... ("@ + nat_decimal(sat_sub(ls.len() as int, 50)) + " more)"@
    } else {
        "=== rpm ("@ + nat_decimal(ls.len()) + " packages) ===\n"@ + out
    }
}

/// A titled section of trimmed output, when the output is not blank.
pub open spec fn titled(title: Seq<char>, out: Option<Seq<char>>) -> Seq<Seq<char>> {
    match out {
        Some(o) => if trim(o).len() > 0 {
            seq![title + trim(o)]
        } else {
            Seq::empty()
        },
        None => Seq::empty(),
    }
}

/// The sections of the package listing: dpkg, else rpm; then Flatpak and Snap.
pub open spec fn package_sections(
    dpkg: Option<Seq<char>>,
    rpm: Option<Seq<char>>,
    flatpak: Option<Seq<char>>,
    snap: Option<Seq<char>>,
) -> Seq<Seq<char>> {
    let first: Seq<Seq<char>> = match dpkg {
        Some(d) => seq![dpkg_section(d)],
        None => match rpm {
            Some(r) => seq![rpm_section(r)],
            None => Seq::empty(),
        },
    };
    first + titled("=== Flatpak ===\n"@, flatpak) + titled("=== Snap ===\n"@, snap)
}

/// The package listing of the Linux app list, from what each package manager
/// printed when it ran successfully.
pub open spec fn spec_package_listing(
    dpkg: Option<Seq<char>>,
    rpm: Option<Seq<char>>,
    flatpak: Option<Seq<char>>,
    snap: Option<Seq<char>>,
) -> Seq<char> {
    let sections = package_sections(dpkg, rpm, flatpak, snap);
    if sections.len() == 0 {
        "No package manager found (tried dpkg, rpm, flatpak, snap)."@
    } else {
        joined(sections, "\n\n"@)
    }
}

/// The text of an optional string slice.
pub open spec fn opt_view(o: Option<&str>) -> Option<Seq<char>> {
    match o {
        Some(s) => Some(s@),
        None => None,
    }
}

fn first_lines(out: &str, k: usize) -> (r: String)
    requires
        k <= lines(out@).len(),
    ensures
        r@ == joined(lines(out@).take(k as int), "\n"@),
{
    let v = chars_of(out);
    let ls = lines_of(&v);
    let mut parts: Vec<String> = Vec::new();
    let mut i: usize = 0;
    while i < k
        invariant
            i <= k <= ls@.len(),
            ls@.map_values(|l: Vec<char>| l@) == lines(out@),
            parts@.map_values(|s: String| s@) == lines(out@).take(i as int),
        decreases k - i,
    {
        let ghost before = parts@.map_values(|s: String| s@);
        parts.push(string_of_all(&ls[i]));
        assert(parts@.map_values(|s: String| s@) =~= before.push(ls@[i as int]@));
        assert(lines(out@).take(i + 1) =~= lines(out@).take(i as int).push(ls@[i as int]@));
        i += 1;
    }
    crate::text::join_strings(&parts, "\n")
}

fn line_count(out: &str) -> (r: usize)
    ensures
        r == lines(out@).len(),
{
    let v = chars_of(out);
    let ls = lines_of(&v);
    assert(ls@.map_values(|l: Vec<char>| l@).len() == ls@.len());
    ls.len()
}

fn dpkg_section_exec(out: &str) -> (r: String)
    ensures
        r@ == dpkg_section(out@),
{
    let n = line_count(out);
    let count: usize = if n > 5 { n - 5 } else { 0 };
    let mut s = owned("=== dpkg (");
    push_str(&mut s, u64_decimal(count as u64).as_str());
    push_str(&mut s, " packages) ===\n");
    if n > 30 {
        let head = first_lines(out, 30);
        push_str(&mut s, head.as_str());
        push_str(&mut s, "\n... (");
        let more: usize = if count > 25 { count - 25 } else { 0 };
        push_str(&mut s, u64_decimal(more as u64).as_str());
        push_str(&mut s, " more, use shell_run 'dpkg --list' for full output)");
    } else {
        push_str(&mut s, out);
    }
    s
}

fn rpm_section_exec(out: &str) -> (r: String)
    ensures
        r@ == rpm_section(out@),
{
    let n = line_count(out);
    let mut s = owned("=== rpm (");
    push_str(&mut s, u64_decimal(n as u64).as_str());
    push_str(&mut s, " packages) ===\n");
    if n > 50 {
        let head = first_lines(out, 50);
        push_str(&mut s, head.as_str());
        push_str(&mut s, "\n... (");
        push_str(&mut s, u64_decimal((n - 50) as u64).as_str());
        push_str(&mut s, " more)");
    } else {
        push_str(&mut s, out);
    }
    s
}

fn push_titled(sections: &mut Vec<String>, title: &str, out: Option<&str>)
    ensures
        final(sections)@.map_values(|s: String| s@) == old(sections)@.map_values(|s: String| s@)
            + titled(title@, opt_view(out)),
{
    let ghost before = sections@.map_values(|s: String| s@);
    match out {
        Some(o) => {
            let t = crate::text::trimmed(o);
            if t.as_str().unicode_len() > 0 {
                let mut s = owned(title);
                push_str(&mut s, t.as_str());
                sections.push(s);
                assert(sections@.map_values(|s: String| s@) =~= before + titled(
                    title@,
                    opt_view(out),
                ));
            } else {
                assert(before + titled(title@, opt_view(out)) =~= before);
            }
        },
        None => {
            assert(before + titled(title@, opt_view(out)) =~= before);
        },
    }
}

/// The package listing of the Linux app list (see `spec_package_listing`);
/// each argument is what a package manager printed, when it ran successfully.
pub fn package_listing(
    dpkg: Option<&str>,
    rpm: Option<&str>,
    flatpak: Option<&str>,
    snap: Option<&str>,
) -> (r: String)
    ensures
        r@ == spec_package_listing(opt_view(dpkg), opt_view(rpm), opt_view(flatpak), opt_view(snap)),
{
    let mut sections: Vec<String> = Vec::new();
    match dpkg {
        Some(d) => sections.push(dpkg_section_exec(d)),
        None => match rpm {
            Some(r) => sections.push(rpm_section_exec(r)),
            None => {},
        },
    }
    let ghost first = sections@.map_values(|s: String| s@);
    assert(first =~= (match opt_view(dpkg) {
        Some(d) => seq![dpkg_section(d)],
        None => match opt_view(rpm) {
            Some(r) => seq![rpm_section(r)],
            None => Seq::<Seq<char>>::empty(),
        },
    }));
    push_titled(&mut sections, "=== Flatpak ===\n", flatpak);
    push_titled(&mut sections, "=== Snap ===\n", snap);
    if sections.len() == 0 {
        owned("No package manager found (tried dpkg, rpm, flatpak, snap).")
    } else {
        crate::text::join_strings(&sections, "\n\n")
    }
}

/// Where a Windows app's cache lives, and where it is moved as a backup.
pub fn win_cache_paths(local_app_data: &str, app_name: &str) -> (r: (String, String))
    ensures
        r.0@ == local_app_data@ + "\\"@ + app_name@,
        r.1@ == local_app_data@ + "\\..\\..\\..\\Temp\\.noah_backup_"@ + app_name@,
{
    let mut cache_dir = owned(local_app_data);
    push_str(&mut cache_dir, "\\");
    push_str(&mut cache_dir, app_name);
    let mut backup_dir = owned(local_app_data);
    push_str(&mut backup_dir, "\\..\\..\\..\\Temp\\.noah_backup_");
    push_str(&mut backup_dir, app_name);
    (cache_dir, backup_dir)
}

/// The PowerShell command that measures a directory in megabytes.
pub fn win_size_command(dir: &str) -> (r: String)
    ensures
        r@ == "$size = (Get-ChildItem '"@ + dir@
            + "' -Recurse -ErrorAction SilentlyContinue | Measure-Object -Property Length -Sum -ErrorAction SilentlyContinue).Sum; '{0:N2} MB' -f ($size / 1MB)"@,
{
    let mut s = owned("$size = (Get-ChildItem '");
    push_str(&mut s, dir);
    push_str(
        &mut s,
        "' -Recurse -ErrorAction SilentlyContinue | Measure-Object -Property Length -Sum -ErrorAction SilentlyContinue).Sum; '{0:N2} MB' -f ($size / 1MB)",
    );
    s
}

/// The PowerShell command that moves a directory away.
pub fn win_move_command(source: &str, destination: &str) -> (r: String)
    ensures
        r@ == "Move-Item -Path '"@ + source@ + "' -Destination '"@ + destination@ + "' -Force"@,
{
    let mut s = owned("Move-Item -Path '");
    push_str(&mut s, source);
    push_str(&mut s, "' -Destination '");
    push_str(&mut s, destination);
    push_str(&mut s, "' -Force");
    s
}

/// The report when the cache directory does not exist.
pub fn cache_not_found_message(cache_dir: &str) -> (r: String)
    ensures
        r@ == "App data directory not found: "@ + cache_dir@,
{
    let mut s = owned("App data directory not found: ");
    push_str(&mut s, cache_dir);
    s
}

/// How the move went: success, a failure with its error output, or a
/// failure to start the command with its error.
#[derive(Debug, Clone, PartialEq, Eq)]
pub enum MoveOutcome {
    Moved,
    Failed(String),
    NotStarted(String),
}

/// The report of clearing an app's cache.
pub fn clear_cache_report(app_name: &str, before_size: &str, backup_dir: &str, outcome: &MoveOutcome) -> (r: String)
    ensures
        outcome == MoveOutcome::Moved ==> r@ == "Cleared app data for '"@ + app_name@ + "' (was "@
            + before_size@ + ").\nBackup saved to "@ + backup_dir@,
        outcome matches MoveOutcome::Failed(stderr) ==> r@ == "Failed to clear app data: "@ + trim(
            stderr@,
        ),
        outcome matches MoveOutcome::NotStarted(e) ==> r@ == "Failed to clear app data: "@ + e@,
{
    match outcome {
        MoveOutcome::Moved => {
            let mut s = owned("Cleared app data for '");
            push_str(&mut s, app_name);
            push_str(&mut s, "' (was ");
            push_str(&mut s, before_size);
            push_str(&mut s, ").\nBackup saved to ");
            push_str(&mut s, backup_dir);
            s
        },
        MoveOutcome::Failed(stderr) => {
            let mut s = owned("Failed to clear app data: ");
            let t = crate::text::trimmed(stderr.as_str());
            push_str(&mut s, t.as_str());
            s
        },
        MoveOutcome::NotStarted(e) => {
            let mut s = owned("Failed to clear app data: ");
            push_str(&mut s, e.as_str());
            s
        },
    }
}

/// A change a tool made, with the tool call that undoes it.
#[derive(Debug)]
pub struct ChangeRecord {
    pub description: String,
    pub undo_tool: String,
    pub undo_input: Json,
}

/// The undo input of a move: moving `source` back to `destination`.
pub open spec fn move_back_is(v: Json, source: Seq<char>, destination: Seq<char>) -> bool {
    &&& v is Object
    &&& v->Object_0@.len() == 3
    &&& v->Object_0@[0].0@ == "destination"@ && crate::playbook_runtime::str_is(
        v->Object_0@[0].1,
        destination,
    )
    &&& v->Object_0@[1].0@ == "operation"@ && crate::playbook_runtime::str_is(
        v->Object_0@[1].1,
        "move"@,
    )
    &&& v->Object_0@[2].0@ == "source"@ && crate::playbook_runtime::str_is(v->Object_0@[2].1, source)
}

/// The change record of a cleared cache: undone by moving the backup back.
pub fn clear_cache_change(app_name: &str, cache_dir: &str, backup_dir: &str) -> (r: ChangeRecord)
    ensures
        r.description@ == "Cleared app data for '"@ + app_name@ + "' from "@ + cache_dir@,
        r.undo_tool@ == "win_move_file"@,
        move_back_is(r.undo_input, backup_dir@, cache_dir@),
{
    let mut description = owned("Cleared app data for '");
    push_str(&mut description, app_name);
    push_str(&mut description, "' from ");
    push_str(&mut description, cache_dir);
    ChangeRecord {
        description,
        undo_tool: owned("win_move_file"),
        undo_input: Json::Object(
            vec![
                (owned("destination"), Json::Str(owned(cache_dir))),
                (owned("operation"), Json::Str(owned("move"))),
                (owned("source"), Json::Str(owned(backup_dir))),
            ],
        ),
    }
}

/// The journal's record of a shell command: one change, with nothing to undo it.
pub fn shell_change_record(command: &str) -> (r: Vec<ChangeRecord>)
    ensures
        r@.len() == 1,
        r@[0].description@ == "Executed shell command: "@ + command@,
        r@[0].undo_tool@.len() == 0,
        r@[0].undo_input == Json::Null,
{
    let mut description = owned("Executed shell command: ");
    push_str(&mut description, command);
    vec![ChangeRecord { description, undo_tool: String::new(), undo_input: Json::Null }]
}

/// What the printer listing shows, given what `lpstat -p -d` printed.
pub open spec fn spec_printer_listing(stdout: Seq<char>, stderr: Seq<char>) -> Seq<char> {
    if stdout.len() == 0 && stderr.len() > 0 {
        if contains(stderr, "No destinations added"@) || contains(stderr, "lpstat: error"@) {
            "No printers configured. CUPS may not be installed or running."@
        } else {
            "lpstat error: "@ + trim(stderr)
        }
    } else if trim(stdout).len() == 0 {
        "No printers found."@
    } else {
        stdout
    }
}

/// The printer listing made of what `lpstat -p -d` printed: its output, or
/// why there is none (no printers configured, an error, or none found).
pub fn printer_listing(stdout: &str, stderr: &str) -> (r: String)
    ensures
        r@ == spec_printer_listing(stdout@, stderr@),
{
    let out = chars_of(stdout);
    let err = chars_of(stderr);
    if out.len() == 0 && err.len() > 0 {
        if str_contains(stderr, "No destinations added") || str_contains(stderr, "lpstat: error") {
            owned("No printers configured. CUPS may not be installed or running.")
        } else {
            let mut m = owned("lpstat error: ");
            let t = trimmed(stderr);
            push_str(&mut m, t.as_str());
            m
        }
    } else if trimmed(stdout).as_str().unicode_len() == 0 {
        owned("No printers found.")
    } else {
        owned(stdout)
    }
}

/// The print queue listing made of what `lpstat -o` printed.
pub fn print_queue_listing(stdout: &str) -> (r: String)
    ensures
        r@ == (if trim(stdout@).len() == 0 {
            "No pending print jobs."@
        } else {
            stdout@
        }),
{
    if trimmed(stdout).as_str().unicode_len() == 0 {
        owned("No pending print jobs.")
    } else {
        owned(stdout)
    }
}

/// The message for a failed restart of the print service, given what
/// `systemctl` printed on its error stream.
pub fn cups_restart_failure(stderr: &str) -> (r: String)
    ensures
        r@ == (if contains(stderr@, "Access denied"@) || contains(stderr@, "Permission denied"@) {
            "Failed to restart CUPS — insufficient privileges.\n"@ + trim(stderr@)
        } else {
            "Failed to restart CUPS: "@ + trim(stderr@)
        }),
{
    let mut m = if str_contains(stderr, "Access denied") || str_contains(stderr, "Permission denied") {
        owned("Failed to restart CUPS — insufficient privileges.\n")
    } else {
        owned("Failed to restart CUPS: ")
    };
    let t = trimmed(stderr);
    push_str(&mut m, t.as_str());
    m
}

/// The first of `ls` that starts with `key`.
pub open spec fn first_line_starting(ls: Seq<Seq<char>>, key: Seq<char>) -> Option<Seq<char>>
    decreases ls.len(),
{
    if ls.len() == 0 {
        None
    } else if starts_with(ls[0], key) {
        Some(ls[0])
    } else {
        first_line_starting(ls.drop_first(), key)
    }
}

/// The kilobytes that `/proc/meminfo` gives for `key` (such as
/// `MemTotal:`): the second word of the first line starting with the key,
/// read as a number.
pub open spec fn spec_meminfo_kb(meminfo: Seq<char>, key: Seq<char>) -> Option<u64> {
    match first_line_starting(lines(meminfo), key) {
        Some(l) => match second_word(l) {
            Some(w) => parse_u64_text(w),
            None => None,
        },
        None => None,
    }
}

/// The second word of the characters `v`.
fn second_word_exec(v: &Vec<char>) -> (r: Option<Vec<char>>)
    ensures
        r matches Some(w) ==> second_word(v@) == Some(w@),
        r is None ==> second_word(v@) is None,
{
    let a = skip_ws(v, 0);
    assert(v@.subrange(0, v@.len() as int) =~= v@);
    let ghost t = trim_start(v@);
    let b = ws_from_exec(v, a);
    proof {
        assert forall|k: int| a <= k <= v@.len() implies ws_from(v@, k) - a == ws_from(
            t,
            k - a,
        ) by {
            lemma_ws_from_shift(v@, a as int, k);
        }
    }
    let c = skip_ws(v, b);
    assert(t.subrange(ws_from(t, 0), t.len() as int) =~= v@.subrange(b as int, v@.len() as int));
    if c >= v.len() {
        return None;
    }
    let e = ws_from_exec(v, c);
    let ghost rest = v@.subrange(c as int, v@.len() as int);
    proof {
        lemma_ws_from_shift(v@, c as int, e as int);
        lemma_ws_from_shift(v@, c as int, c as int);
    }
    let w = slice_vec(v, c, e);
    assert(w@ =~= rest.subrange(0, ws_from(rest, 0)));
    Some(w)
}

/// `ws_from` on a suffix is `ws_from` on the whole, shifted.
proof fn lemma_ws_from_shift(s: Seq<char>, a: int, k: int)
    requires
        0 <= a <= k <= s.len(),
    ensures
        ws_from(s, k) - a == ws_from(s.subrange(a, s.len() as int), k - a),
    decreases s.len() - k,
{
    let t = s.subrange(a, s.len() as int);
    if k < s.len() {
        assert(t[k - a] == s[k]);
        lemma_ws_from_shift(s, a, k + 1);
    }
}

/// The kilobytes that `/proc/meminfo` (its text) gives for `key` (see
/// `spec_meminfo_kb`).
pub fn meminfo_kb(meminfo: &str, key: &str) -> (r: Option<u64>)
    ensures
        r == spec_meminfo_kb(meminfo@, key@),
{
    let v = chars_of(meminfo);
    let k = chars_of(key);
    let ls = lines_of(&v);
    let ghost lv = ls@.map_values(|l: Vec<char>| l@);
    assert(lv.subrange(0, lv.len() as int) =~= lv);
    let mut i: usize = 0;
    while i < ls.len()
        invariant
            i <= ls@.len(),
            lv == ls@.map_values(|l: Vec<char>| l@),
            lv == lines(meminfo@),
            k@ == key@,
            first_line_starting(lv, key@) == first_line_starting(lv.subrange(i as int, lv.len() as int), key@),
        decreases ls@.len() - i,
    {
        let ghost rest = lv.subrange(i as int, lv.len() as int);
        assert(rest[0] == ls@[i as int]@);
        assert(rest.drop_first() =~= lv.subrange(i + 1, lv.len() as int));
        if starts_with_exec(&ls[i], &k) {
            return match second_word_exec(&ls[i]) {
                Some(w) => parse_u64(&w),
                None => None,
            };
        }
        i += 1;
    }
    assert(lv.subrange(i as int, lv.len() as int).len() == 0);
    None
}

} // verus!
