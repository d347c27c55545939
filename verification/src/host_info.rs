//! What the diagnostics tools decide about the machine's own files: which
//! paths a file read may touch, and the parts of `/proc/cpuinfo`,
//! `/etc/os-release`, `/etc/resolv.conf` and long outputs that they report.
use vstd::prelude::*;

use crate::playbook_runtime::views;
use crate::text::{
    chars_of, find, find_exec, joined, join_strings, lines, lines_of, nat_decimal, owned,
    push_str, slice_vec, starts_with, starts_with_exec, str_starts_with, string_of, string_of_all,
    upper_case, trim, trim_bounds, u64_decimal, case_fold_upper,
};

verus! {

// ── Path policies ──────────────────────────────────────────────────────

/// `s` starts with one of `ps`.
pub open spec fn prefixed_by_any(s: Seq<char>, ps: Seq<Seq<char>>) -> bool {
    exists|i: int| 0 <= i < ps.len() && starts_with(s, #[trigger] ps[i])
}

/// Whether `s` starts with one of `ps`.
fn starts_with_any(s: &str, ps: &Vec<String>) -> (b: bool)
    ensures
        b == prefixed_by_any(s@, views(ps@)),
{
    let mut i: usize = 0;
    while i < ps.len()
        invariant
            i <= ps@.len(),
            forall|k: int| 0 <= k < i ==> !starts_with(s@, #[trigger] views(ps@)[k]),
        decreases ps@.len() - i,
    {
        if str_starts_with(s, ps[i].as_str()) {
            assert(views(ps@)[i as int] == ps@[i as int]@);
            return true;
        }
        assert(views(ps@)[i as int] == ps@[i as int]@);
        i += 1;
    }
    false
}

/// The places a Linux file read may never touch.
pub open spec fn linux_forbidden_prefixes() -> Seq<Seq<char>> {
    seq!["/proc/kcore"@, "/proc/kmem"@, "/dev/"@, "/boot/"@]
}

/// The places a Linux file read may touch.
pub open spec fn linux_allowed_prefixes() -> Seq<Seq<char>> {
    seq![
        "/home/"@,
        "/tmp/"@,
        "/var/log/"@,
        "/var/tmp/"@,
        "/etc/"@,
        "/usr/local/"@,
        "/opt/"@,
        "/proc/"@,
        "/sys/class/"@,
    ]
}

/// A Linux path may be read when it is under no forbidden prefix and under
/// an allowed one.
pub open spec fn spec_linux_path_allowed(path: Seq<char>) -> bool {
    !prefixed_by_any(path, linux_forbidden_prefixes()) && prefixed_by_any(
        path,
        linux_allowed_prefixes(),
    )
}

/// Whether a (canonical) Linux path may be read.
pub fn linux_path_allowed(path: &str) -> (b: bool)
    ensures
        b == spec_linux_path_allowed(path@),
{
    let forbidden = vec![owned("/proc/kcore"), owned("/proc/kmem"), owned("/dev/"), owned("/boot/")];
    assert(views(forbidden@) =~= linux_forbidden_prefixes());
    if starts_with_any(path, &forbidden) {
        return false;
    }
    let allowed = vec![
        owned("/home/"),
        owned("/tmp/"),
        owned("/var/log/"),
        owned("/var/tmp/"),
        owned("/etc/"),
        owned("/usr/local/"),
        owned("/opt/"),
        owned("/proc/"),
        owned("/sys/class/"),
    ];
    assert(views(allowed@) =~= linux_allowed_prefixes());
    starts_with_any(path, &allowed)
}

/// The places a Windows file read may never touch.
pub open spec fn win_forbidden_prefixes() -> Seq<Seq<char>> {
    seq![
        "C:\\Windows\\System32\\config\\"@,
        "C:\\Windows\\System32\\drivers\\"@,
        "C:\\Boot\\"@,
        "C:\\$"@,
    ]
}

/// The places a Windows file read may touch.
pub open spec fn win_allowed_prefixes() -> Seq<Seq<char>> {
    seq![
        "C:\\Users\\"@,
        "C:\\Windows\\Logs\\"@,
        "C:\\Windows\\Temp\\"@,
        "C:\\ProgramData\\"@,
        "C:\\Program Files\\"@,
        "C:\\Program Files (x86)\\"@,
        "C:\\temp\\"@,
        "C:\\tmp\\"@,
    ]
}

/// Each text upper-cased.
pub open spec fn uppers(ps: Seq<Seq<char>>) -> Seq<Seq<char>> {
    ps.map_values(|p: Seq<char>| case_fold_upper(p))
}

/// Each string upper-cased.
fn upper_all(ps: &Vec<String>) -> (r: Vec<String>)
    ensures
        views(r@) == uppers(views(ps@)),
{
    let mut out: Vec<String> = Vec::new();
    let mut i: usize = 0;
    while i < ps.len()
        invariant
            i <= ps@.len(),
            views(out@) == uppers(views(ps@)).take(i as int),
        decreases ps@.len() - i,
    {
        let ghost before = views(out@);
        out.push(upper_case(ps[i].as_str()));
        assert(views(out@) =~= before.push(case_fold_upper(ps@[i as int]@)));
        assert(uppers(views(ps@)).take(i + 1) =~= uppers(views(ps@)).take(i as int).push(
            case_fold_upper(ps@[i as int]@),
        ));
        i += 1;
    }
    assert(uppers(views(ps@)).take(ps@.len() as int) =~= uppers(views(ps@)));
    out
}

/// A Windows path may be read, compared without regard to case, when it is
/// under no forbidden prefix, and under an allowed prefix or one of the
/// user's own directories (`env_dirs`: the values of `APPDATA`,
/// `LOCALAPPDATA`, `TEMP`, `TMP` and `USERPROFILE` that are set).
pub open spec fn spec_win_path_allowed(path: Seq<char>, env_dirs: Seq<Seq<char>>) -> bool {
    let up = case_fold_upper(path);
    !prefixed_by_any(up, uppers(win_forbidden_prefixes())) && (prefixed_by_any(
        up,
        uppers(win_allowed_prefixes()),
    ) || prefixed_by_any(up, uppers(env_dirs)))
}

/// Whether a (canonical, cleaned) Windows path may be read.
pub fn win_path_allowed(path: &str, env_dirs: &Vec<String>) -> (b: bool)
    ensures
        b == spec_win_path_allowed(path@, views(env_dirs@)),
{
    let up = upper_case(path);
    let forbidden = vec![
        owned("C:\\Windows\\System32\\config\\"),
        owned("C:\\Windows\\System32\\drivers\\"),
        owned("C:\\Boot\\"),
        owned("C:\\$"),
    ];
    assert(views(forbidden@) =~= win_forbidden_prefixes());
    if starts_with_any(up.as_str(), &upper_all(&forbidden)) {
        return false;
    }
    let allowed = vec![
        owned("C:\\Users\\"),
        owned("C:\\Windows\\Logs\\"),
        owned("C:\\Windows\\Temp\\"),
        owned("C:\\ProgramData\\"),
        owned("C:\\Program Files\\"),
        owned("C:\\Program Files (x86)\\"),
        owned("C:\\temp\\"),
        owned("C:\\tmp\\"),
    ];
    assert(views(allowed@) =~= win_allowed_prefixes());
    if starts_with_any(up.as_str(), &upper_all(&allowed)) {
        return true;
    }
    starts_with_any(up.as_str(), &upper_all(env_dirs))
}

/// A canonical Windows path without the `\\?\` prefix that canonicalizing adds.
pub open spec fn spec_win_clean_path(path: Seq<char>) -> Seq<char> {
    if starts_with(path, "\\\\?\\"@) {
        path.subrange("\\\\?\\"@.len() as int, path.len() as int)
    } else {
        path
    }
}

/// Remove the `\\?\` prefix of a canonical Windows path.
pub fn win_clean_path(path: &str) -> (r: String)
    ensures
        r@ == spec_win_clean_path(path@),
{
    let v = crate::text::chars_of(path);
    let p = crate::text::chars_of("\\\\?\\");
    if crate::text::starts_with_exec(&v, &p) {
        crate::text::string_of(&v, p.len(), v.len())
    } else {
        owned(path)
    }
}

/// The answer to a Linux read outside the allowed places.
pub fn linux_access_denied(path: &str) -> (r: String)
    ensures
        r@ == "Access denied: '"@ + path@
            + "' is outside the allowed scope. Allowed locations include /home/*, /var/log/*, /etc/*, /tmp/*, /opt/*."@,
{
    let mut s = owned("Access denied: '");
    push_str(&mut s, path);
    push_str(
        &mut s,
        "' is outside the allowed scope. Allowed locations include /home/*, /var/log/*, /etc/*, /tmp/*, /opt/*.",
    );
    s
}

/// The answer to a Windows read outside the allowed places.
pub fn win_access_denied(path: &str) -> (r: String)
    ensures
        r@ == "Access denied: '"@ + path@
            + "' is outside the allowed scope. Allowed locations include C:\\Users\\*, C:\\ProgramData\\*, C:\\Windows\\Logs\\*."@,
{
    let mut s = owned("Access denied: '");
    push_str(&mut s, path);
    push_str(
        &mut s,
        "' is outside the allowed scope. Allowed locations include C:\\Users\\*, C:\\ProgramData\\*, C:\\Windows\\Logs\\*.",
    );
    s
}


// ── Lines of system files and outputs ──────────────────────────────────

/// The first of `ls` that starts with `p`.
pub open spec fn first_with_prefix(ls: Seq<Seq<char>>, p: Seq<char>) -> Option<Seq<char>>
    decreases ls.len(),
{
    if ls.len() == 0 {
        None
    } else {
        match first_with_prefix(ls.drop_last(), p) {
            Some(l) => Some(l),
            None => if starts_with(ls.last(), p) {
                Some(ls.last())
            } else {
                None
            },
        }
    }
}

/// How many of `ls` start with `p`.
pub open spec fn count_with_prefix(ls: Seq<Seq<char>>, p: Seq<char>) -> nat
    decreases ls.len(),
{
    if ls.len() == 0 {
        0
    } else {
        count_with_prefix(ls.drop_last(), p) + if starts_with(ls.last(), p) {
            1nat
        } else {
            0nat
        }
    }
}

/// Those of `ls` that start with `p`, in order.
pub open spec fn filter_prefix(ls: Seq<Seq<char>>, p: Seq<char>) -> Seq<Seq<char>>
    decreases ls.len(),
{
    if ls.len() == 0 {
        Seq::empty()
    } else if starts_with(ls.last(), p) {
        filter_prefix(ls.drop_last(), p).push(ls.last())
    } else {
        filter_prefix(ls.drop_last(), p)
    }
}

/// The second field of `l` split at `c` (`l.split(c).nth(1)`): what lies
/// between the first and the second `c`, or after the first when there is
/// no second.
pub open spec fn second_field(l: Seq<char>, c: char) -> Option<Seq<char>> {
    match find(l, seq![c]) {
        Some(i) => {
            let rest = l.subrange(i + 1, l.len() as int);
            Some(
                match find(rest, seq![c]) {
                    Some(j) => rest.subrange(0, j),
                    None => rest,
                },
            )
        },
        None => None,
    }
}

/// The processor model named in `/proc/cpuinfo`: the trimmed second
/// `:`-field of the first `model name` line, else `unknown`.
pub open spec fn spec_cpu_model(cpuinfo: Seq<char>) -> Seq<char> {
    match first_with_prefix(lines(cpuinfo), "model name"@) {
        Some(l) => match second_field(l, ':') {
            Some(f) => trim(f),
            None => "unknown"@,
        },
        None => "unknown"@,
    }
}

/// The number of cores in `/proc/cpuinfo`: its `processor` lines, at least one.
pub open spec fn spec_cpu_cores(cpuinfo: Seq<char>) -> nat {
    let c = count_with_prefix(lines(cpuinfo), "processor"@);
    if c > 1 {
        c
    } else {
        1
    }
}

/// The lines of a text, each as its own vector, with their views.
fn line_vecs(text: &str) -> (r: Vec<Vec<char>>)
    ensures
        r@.map_values(|l: Vec<char>| l@) == lines(text@),
{
    let v = chars_of(text);
    lines_of(&v)
}

/// The trimmed second `:`-field of a line, if it has one.
fn second_field_trimmed(l: &Vec<char>) -> (r: Option<String>)
    ensures
        r matches Some(s) ==> second_field(l@, ':') matches Some(f) && s@ == trim(f),
        r is None ==> second_field(l@, ':') is None,
{
    let mut colon: Vec<char> = Vec::new();
    colon.push(':');
    assert(colon@ =~= seq![':']);
    match find_exec(l, &colon) {
        Some(i) => {
            let rest = slice_vec(l, i + 1, l.len());
            let end = match find_exec(&rest, &colon) {
                Some(j) => j,
                None => rest.len(),
            };
            let (lo, hi) = trim_bounds(&rest, 0, end);
            assert(rest@.subrange(0, rest@.len() as int) =~= rest@);
            Some(string_of(&rest, lo, hi))
        },
        None => None,
    }
}

/// The processor model and the number of cores in the text of `/proc/cpuinfo`
/// (empty when it cannot be read).
pub fn cpu_info(cpuinfo: &str) -> (r: (String, usize))
    ensures
        r.0@ == spec_cpu_model(cpuinfo@),
        r.1 == spec_cpu_cores(cpuinfo@),
{
    let ls = line_vecs(cpuinfo);
    let ghost lv = ls@.map_values(|l: Vec<char>| l@);
    let model_p = chars_of("model name");
    let proc_p = chars_of("processor");
    let mut model: Option<String> = None;
    let mut found = false;
    let mut cores: usize = 0;
    let mut i: usize = 0;
    while i < ls.len()
        invariant
            i <= ls@.len(),
            lv == ls@.map_values(|l: Vec<char>| l@),
            model_p@ == "model name"@,
            proc_p@ == "processor"@,
            found == (first_with_prefix(lv.take(i as int), "model name"@) is Some),
            !found ==> model is None,
            found ==> match first_with_prefix(lv.take(i as int), "model name"@) {
                Some(l) => match second_field(l, ':') {
                    Some(f) => model matches Some(m) && m@ == trim(f),
                    None => model is None,
                },
                None => true,
            },
            cores == count_with_prefix(lv.take(i as int), "processor"@),
            cores <= i,
        decreases ls@.len() - i,
    {
        assert(lv.take(i + 1).drop_last() =~= lv.take(i as int));
        assert(lv.take(i + 1).last() == ls@[i as int]@);
        if !found && starts_with_exec(&ls[i], &model_p) {
            found = true;
            model = second_field_trimmed(&ls[i]);
        }
        if starts_with_exec(&ls[i], &proc_p) {
            cores = cores + 1;
        }
        i += 1;
    }
    assert(lv.take(ls@.len() as int) =~= lv);
    assert(cores == count_with_prefix(lines(cpuinfo@), "processor"@));
    let name = match model {
        Some(m) => m,
        None => owned("unknown"),
    };
    (name, if cores > 1 { cores } else { 1 })
}

/// `s` with every leading copy of `p` removed (`str::trim_start_matches`).
pub open spec fn strip_all_prefix(s: Seq<char>, p: Seq<char>) -> Seq<char>
    decreases s.len(),
{
    if p.len() > 0 && starts_with(s, p) {
        strip_all_prefix(s.subrange(p.len() as int, s.len() as int), p)
    } else {
        s
    }
}

/// `s` without the copies of `c` at its start.
pub open spec fn strip_char_start(s: Seq<char>, c: char) -> Seq<char>
    decreases s.len(),
{
    if s.len() > 0 && s[0] == c {
        strip_char_start(s.drop_first(), c)
    } else {
        s
    }
}

/// `s` without the copies of `c` at its end.
pub open spec fn strip_char_end(s: Seq<char>, c: char) -> Seq<char>
    decreases s.len(),
{
    if s.len() > 0 && s.last() == c {
        strip_char_end(s.drop_last(), c)
    } else {
        s
    }
}

/// The distribution's name in the text of `/etc/os-release`: the value of
/// its first `PRETTY_NAME=` line without surrounding quotes, else `Unknown Linux`.
pub open spec fn spec_distro_name(os_release: Seq<char>) -> Seq<char> {
    match first_with_prefix(lines(os_release), "PRETTY_NAME="@) {
        Some(l) => strip_char_end(strip_char_start(strip_all_prefix(l, "PRETTY_NAME="@), '"'), '"'),
        None => "Unknown Linux"@,
    }
}

/// Where `v[from..]` starts once every leading copy of `p` is skipped.
fn skip_prefixes(v: &Vec<char>, p: &Vec<char>) -> (r: usize)
    requires
        p@.len() > 0,
    ensures
        r <= v@.len(),
        v@.subrange(r as int, v@.len() as int) == strip_all_prefix(v@, p@),
{
    let mut pos: usize = 0;
    assert(v@.subrange(0, v@.len() as int) =~= v@);
    while p.len() <= v.len() - pos && crate::text::occurs_at_exec(v, p, pos)
        invariant
            pos <= v@.len(),
            p@.len() > 0,
            strip_all_prefix(v@.subrange(pos as int, v@.len() as int), p@) == strip_all_prefix(
                v@,
                p@,
            ),
        decreases v@.len() - pos,
    {
        let ghost sub = v@.subrange(pos as int, v@.len() as int);
        assert(sub.subrange(0, p@.len() as int) =~= v@.subrange(pos as int, pos + p@.len()));
        assert(sub.subrange(p@.len() as int, sub.len() as int) =~= v@.subrange(
            pos + p@.len(),
            v@.len() as int,
        ));
        pos = pos + p.len();
    }
    let ghost sub = v@.subrange(pos as int, v@.len() as int);
    if p.len() <= v.len() - pos {
        assert(sub.subrange(0, p@.len() as int) =~= v@.subrange(pos as int, pos + p@.len()));
    }
    pos
}

/// The bounds of `v[from..]` without copies of `c` at either end.
fn strip_char_bounds(v: &Vec<char>, from: usize, c: char) -> (r: (usize, usize))
    requires
        from <= v@.len(),
    ensures
        from <= r.0 <= r.1 <= v@.len(),
        v@.subrange(r.0 as int, r.1 as int) == strip_char_end(
            strip_char_start(v@.subrange(from as int, v@.len() as int), c),
            c,
        ),
{
    let ghost s = v@.subrange(from as int, v@.len() as int);
    let mut lo = from;
    while lo < v.len() && v[lo] == c
        invariant
            from <= lo <= v@.len(),
            strip_char_start(v@.subrange(lo as int, v@.len() as int), c) == strip_char_start(s, c),
        decreases v@.len() - lo,
    {
        assert(v@.subrange(lo as int, v@.len() as int).drop_first() =~= v@.subrange(
            lo + 1,
            v@.len() as int,
        ));
        lo += 1;
    }
    let ghost t = v@.subrange(lo as int, v@.len() as int);
    assert(strip_char_start(t, c) == t);
    let mut hi = v.len();
    assert(v@.subrange(lo as int, hi as int) =~= t);
    while hi > lo && v[hi - 1] == c
        invariant
            lo <= hi <= v@.len(),
            strip_char_end(v@.subrange(lo as int, hi as int), c) == strip_char_end(t, c),
        decreases hi - lo,
    {
        assert(v@.subrange(lo as int, hi as int).drop_last() =~= v@.subrange(
            lo as int,
            hi - 1,
        ));
        hi -= 1;
    }
    (lo, hi)
}

/// The value of a `PRETTY_NAME=` line without surrounding quotes.
fn pretty_value(l: &Vec<char>) -> (r: String)
    ensures
        r@ == strip_char_end(strip_char_start(strip_all_prefix(l@, "PRETTY_NAME="@), '"'), '"'),
{
    let key = chars_of("PRETTY_NAME=");
    proof {
        reveal_strlit("PRETTY_NAME=");
    }
    let from = skip_prefixes(l, &key);
    let (lo, hi) = strip_char_bounds(l, from, '"');
    string_of(l, lo, hi)
}

/// The distribution's name in the text of `/etc/os-release` (empty when it
/// cannot be read).
pub fn distro_name(os_release: &str) -> (r: String)
    ensures
        r@ == spec_distro_name(os_release@),
{
    let ls = line_vecs(os_release);
    let ghost lv = ls@.map_values(|l: Vec<char>| l@);
    let key = chars_of("PRETTY_NAME=");
    let mut i: usize = 0;
    while i < ls.len()
        invariant
            i <= ls@.len(),
            lv == ls@.map_values(|l: Vec<char>| l@),
            lv == lines(os_release@),
            key@ == "PRETTY_NAME="@,
            first_with_prefix(lv.take(i as int), "PRETTY_NAME="@) is None,
        decreases ls@.len() - i,
    {
        assert(lv.take(i + 1).drop_last() =~= lv.take(i as int));
        assert(lv.take(i + 1).last() == ls@[i as int]@);
        if starts_with_exec(&ls[i], &key) {
            assert(lv[i as int] == ls@[i as int]@);
            proof {
                lemma_first_with_prefix_none_rest(lv, i as int, "PRETTY_NAME="@);
            }
            return pretty_value(&ls[i]);
        }
        i += 1;
    }
    assert(lv.take(ls@.len() as int) =~= lv);
    owned("Unknown Linux")
}

/// When no line before `i` starts with `p` and line `i` does, the first such
/// line is line `i`.
proof fn lemma_first_with_prefix_none_rest(ls: Seq<Seq<char>>, i: int, p: Seq<char>)
    requires
        0 <= i < ls.len(),
        first_with_prefix(ls.take(i), p) is None,
        starts_with(ls[i], p),
    ensures
        first_with_prefix(ls, p) == Some(ls[i]),
    decreases ls.len() - i,
{
    if i + 1 < ls.len() {
        assert(ls.take(i + 1).drop_last() =~= ls.take(i));
        lemma_first_some_extends(ls, i + 1, p);
    } else {
        assert(ls.drop_last() =~= ls.take(i));
    }
}

/// A first match among the first `k` stays the first match of the whole.
proof fn lemma_first_some_extends(ls: Seq<Seq<char>>, k: int, p: Seq<char>)
    requires
        0 <= k <= ls.len(),
        first_with_prefix(ls.take(k), p) is Some,
    ensures
        first_with_prefix(ls, p) == first_with_prefix(ls.take(k), p),
    decreases ls.len() - k,
{
    if k < ls.len() {
        assert(ls.take(k + 1).drop_last() =~= ls.take(k));
        lemma_first_some_extends(ls, k + 1, p);
    } else {
        assert(ls.take(k) =~= ls);
    }
}

/// The first `n` of the lines, joined by newlines.
fn joined_first_lines(ls: &Vec<Vec<char>>, n: usize) -> (r: String)
    requires
        n <= ls@.len(),
    ensures
        r@ == joined(ls@.map_values(|l: Vec<char>| l@).take(n as int), "\n"@),
{
    let ghost lv = ls@.map_values(|l: Vec<char>| l@);
    let mut out: Vec<String> = Vec::new();
    let mut i: usize = 0;
    while i < n
        invariant
            i <= n <= ls@.len(),
            lv == ls@.map_values(|l: Vec<char>| l@),
            views(out@) == lv.take(i as int),
        decreases n - i,
    {
        let ghost before = views(out@);
        out.push(string_of_all(&ls[i]));
        assert(views(out@) =~= before.push(ls@[i as int]@));
        assert(lv.take(i + 1) =~= lv.take(i as int).push(lv[i as int]));
        i += 1;
    }
    join_strings(&out, "\n")
}

/// The lines of `/etc/resolv.conf` that name a nameserver, one per line.
pub fn nameserver_lines(resolv: &str) -> (r: String)
    ensures
        r@ == joined(filter_prefix(lines(resolv@), "nameserver"@), "\n"@),
{
    let ls = line_vecs(resolv);
    let ghost lv = ls@.map_values(|l: Vec<char>| l@);
    let key = chars_of("nameserver");
    let mut out: Vec<String> = Vec::new();
    let mut i: usize = 0;
    while i < ls.len()
        invariant
            i <= ls@.len(),
            lv == ls@.map_values(|l: Vec<char>| l@),
            key@ == "nameserver"@,
            views(out@) == filter_prefix(lv.take(i as int), "nameserver"@),
        decreases ls@.len() - i,
    {
        assert(lv.take(i + 1).drop_last() =~= lv.take(i as int));
        assert(lv.take(i + 1).last() == ls@[i as int]@);
        if starts_with_exec(&ls[i], &key) {
            let ghost before = views(out@);
            out.push(string_of_all(&ls[i]));
            assert(views(out@) =~= before.push(ls@[i as int]@));
        }
        i += 1;
    }
    assert(lv.take(ls@.len() as int) =~= lv);
    join_strings(&out, "\n")
}

/// A text of more than `n` lines cut to its first `n`, joined by newlines;
/// a shorter one as it is.
pub open spec fn spec_limit_lines(text: Seq<char>, n: nat) -> Seq<char> {
    if lines(text).len() > n {
        joined(lines(text).take(n as int), "\n"@)
    } else {
        text
    }
}

/// Cut a long output to its first `n` lines (a process listing keeps its
/// header and the first 25 processes: `n` is 26).
pub fn limit_lines(text: &str, n: usize) -> (r: String)
    ensures
        r@ == spec_limit_lines(text@, n as nat),
{
    let ls = line_vecs(text);
    if ls.len() > n {
        joined_first_lines(&ls, n)
    } else {
        owned(text)
    }
}

/// What a file read shows: a file of more than 500 lines as its first 500,
/// after a note of how many it has; a shorter one whole.
pub open spec fn spec_file_excerpt(contents: Seq<char>) -> Seq<char> {
    let ls = lines(contents);
    if ls.len() > 500 {
        "... (showing first 500 of "@ + nat_decimal(ls.len()) + " lines)\n"@ + joined(
            ls.take(500),
            "\n"@,
        )
    } else {
        contents
    }
}

/// The text a file read hands back for the file's contents.
pub fn file_excerpt(contents: &str) -> (r: String)
    ensures
        r@ == spec_file_excerpt(contents@),
{
    let ls = line_vecs(contents);
    if ls.len() > 500 {
        let mut s = owned("... (showing first 500 of ");
        let count = u64_decimal(ls.len() as u64);
        push_str(&mut s, count.as_str());
        push_str(&mut s, " lines)\n");
        let body = joined_first_lines(&ls, 500);
        push_str(&mut s, body.as_str());
        s
    } else {
        owned(contents)
    }
}

} // verus!
