//! Diagnostic playbooks: frontmatter parsing, the registry of available
//! playbooks, and the `activate_playbook` tool that loads one by name.
use vstd::prelude::*;

use crate::json::{str_field, Json};
use crate::order::{is_permutation, stable_sort_order, stable_sorted};
use crate::shell::{SafetyTier, TargetOs};
use crate::tools::{object_schema, schema_is, ReadOnlyResult, ToolSpec};
use crate::text::{
    chars_of, find, find_exec, joined, lines, lines_of, owned, push_range, push_str, slice_vec,
    starts_with, starts_with_exec, str_eq, string_of, string_of_all, trim, trim_bounds,
    trim_start,
};

verus! {

/// Metadata parsed from a playbook's YAML frontmatter.
#[derive(Debug, Clone)]
pub struct PlaybookMeta {
    pub name: String,
    pub description: String,
    /// Target platform: "macos", "windows", "linux", or "all".
    pub platform: String,
    /// Date of last review (YYYY-MM-DD).
    pub last_reviewed: Option<String>,
    /// Who wrote or last reviewed it.
    pub author: Option<String>,
    /// "system" for built-in playbooks (always refreshed), "user" for user-created ones.
    pub playbook_type: String,
}

/// A playbook file: its name without the `.md` extension, and its text.
#[derive(Debug, Clone)]
pub struct PlaybookFile {
    pub stem: String,
    pub content: String,
}

/// Registry of available playbooks.
#[derive(Debug)]
pub struct PlaybookRegistry {
    pub playbooks_dir: String,
    pub metas: Vec<PlaybookMeta>,
}

/// Why a playbook could not be loaded.
#[derive(Debug, Clone, PartialEq, Eq)]
pub enum PlaybookError {
    /// No playbook has this name or file stem.
    NotFound(String),
    /// The tool input has no string `name`.
    MissingName,
}

// ── Frontmatter ──

/// The YAML block between the opening `---` and the next line starting with `---`.
pub open spec fn frontmatter_block(content: Seq<char>) -> Option<Seq<char>> {
    let t = trim_start(content);
    if !starts_with(t, "---"@) {
        None
    } else {
        let after = t.subrange("---"@.len() as int, t.len() as int);
        match find(after, "\n---"@) {
            Some(end) => Some(after.subrange(0, end)),
            None => None,
        }
    }
}

/// The value of the last line (trimmed) that starts with `key`, trimmed.
pub open spec fn last_value(ls: Seq<Seq<char>>, key: Seq<char>) -> Option<Seq<char>>
    decreases ls.len(),
{
    if ls.len() == 0 {
        None
    } else {
        let l = trim(ls.last());
        if starts_with(l, key) {
            Some(trim(l.subrange(key.len() as int, l.len() as int)))
        } else {
            last_value(ls.drop_last(), key)
        }
    }
}

/// The value of `key` in the frontmatter of `content`.
pub open spec fn fm_value(content: Seq<char>, key: Seq<char>) -> Option<Seq<char>> {
    match frontmatter_block(content) {
        Some(block) => last_value(lines(block), key),
        None => None,
    }
}

/// `content` has frontmatter with a name and a description.
pub open spec fn has_meta(content: Seq<char>) -> bool {
    frontmatter_block(content) is Some && fm_value(content, "name:"@) is Some && fm_value(
        content,
        "description:"@,
    ) is Some
}

/// The metadata holds what the frontmatter of `content` says, with platform
/// `all` and type `user` when those keys are absent.
pub open spec fn meta_of(m: PlaybookMeta, content: Seq<char>) -> bool {
    &&& Some(m.name@) == fm_value(content, "name:"@)
    &&& Some(m.description@) == fm_value(content, "description:"@)
    &&& m.platform@ == (match fm_value(content, "platform:"@) {
        Some(p) => p,
        None => "all"@,
    })
    &&& crate::assistant_ui::opt_str_is(m.last_reviewed, fm_value(content, "last_reviewed:"@))
    &&& crate::assistant_ui::opt_str_is(m.author, fm_value(content, "author:"@))
    &&& m.playbook_type@ == (match fm_value(content, "type:"@) {
        Some(t) => t,
        None => "user"@,
    })
}

fn last_value_exec(ls: &Vec<Vec<char>>, key: &str) -> (r: Option<String>)
    ensures
        crate::assistant_ui::opt_str_is(
            r,
            last_value(ls@.map_values(|l: Vec<char>| l@), key@),
        ),
{
    let kv = chars_of(key);
    let ghost lv = ls@.map_values(|l: Vec<char>| l@);
    let mut n = ls.len();
    assert(lv.subrange(0, lv.len() as int) =~= lv);
    while n > 0
        invariant
            n <= ls@.len(),
            kv@ == key@,
            lv == ls@.map_values(|l: Vec<char>| l@),
            last_value(lv, key@) == last_value(lv.subrange(0, n as int), key@),
        decreases n,
    {
        let ghost pre = lv.subrange(0, n as int);
        assert(pre.last() == ls@[n - 1]@);
        assert(pre.drop_last() =~= lv.subrange(0, n - 1));
        let line = &ls[n - 1];
        let (lo, hi) = trim_bounds(line, 0, line.len());
        assert(line@.subrange(0, line@.len() as int) =~= line@);
        let t = slice_vec(line, lo, hi);
        if starts_with_exec(&t, &kv) {
            let (a, b) = trim_bounds(&t, kv.len(), t.len());
            return Some(string_of(&t, a, b));
        }
        n -= 1;
    }
    None
}

/// Parse YAML frontmatter from a playbook markdown string.
/// Expects `---\n...\n---` at the start of the text; `name:` and
/// `description:` are required, `platform:` defaults to `all` and `type:` to `user`.
pub fn parse_frontmatter(content: &str) -> (r: Option<PlaybookMeta>)
    ensures
        r is Some <==> has_meta(content@),
        r matches Some(m) ==> meta_of(m, content@),
{
    let cv = chars_of(content);
    let (lo, _hi) = trim_bounds_start(&cv);
    let t = slice_vec(&cv, lo, cv.len());
    let dashes = chars_of("---");
    if !starts_with_exec(&t, &dashes) {
        return None;
    }
    let after = slice_vec(&t, dashes.len(), t.len());
    let close = chars_of("\n---");
    let end = match find_exec(&after, &close) {
        Some(e) => e,
        None => return None,
    };
    let block = slice_vec(&after, 0, end);
    assert(frontmatter_block(content@) == Some(block@));
    let ls = lines_of(&block);
    let name = last_value_exec(&ls, "name:");
    let description = last_value_exec(&ls, "description:");
    let platform = last_value_exec(&ls, "platform:");
    let last_reviewed = last_value_exec(&ls, "last_reviewed:");
    let author = last_value_exec(&ls, "author:");
    let playbook_type = last_value_exec(&ls, "type:");
    let name = match name {
        Some(n) => n,
        None => return None,
    };
    let description = match description {
        Some(d) => d,
        None => return None,
    };
    Some(
        PlaybookMeta {
            name,
            description,
            platform: match platform {
                Some(p) => p,
                None => owned("all"),
            },
            last_reviewed,
            author,
            playbook_type: match playbook_type {
                Some(t) => t,
                None => owned("user"),
            },
        },
    )
}

fn trim_bounds_start(v: &Vec<char>) -> (r: (usize, usize))
    ensures
        r.0 <= v.len(),
        v@.subrange(r.0 as int, v@.len() as int) == trim_start(v@),
{
    let mut i: usize = 0;
    assert(v@.subrange(0, v@.len() as int) =~= v@);
    while i < v.len() && crate::text::is_ws_char(v[i])
        invariant
            i <= v.len(),
            trim_start(v@) == trim_start(v@.subrange(i as int, v@.len() as int)),
        decreases v.len() - i,
    {
        let ghost cur = v@.subrange(i as int, v@.len() as int);
        assert(cur.drop_first() =~= v@.subrange(i + 1, v@.len() as int));
        i += 1;
    }
    let ghost fin = v@.subrange(i as int, v@.len() as int);
    assert(trim_start(fin) == fin) by {
        if fin.len() > 0 {
            assert(fin[0] == v@[i as int]);
        }
    }
    (i, v.len())
}

// ── Registry ──

/// The platform identifier used for playbook filtering.
pub fn current_platform(os: TargetOs) -> (r: &'static str)
    ensures
        r@ == (match os {
            TargetOs::MacOs => "macos"@,
            TargetOs::Windows => "windows"@,
            _ => "linux"@,
        }),
{
    match os {
        TargetOs::MacOs => "macos",
        TargetOs::Windows => "windows",
        _ => "linux",
    }
}

/// A file's metadata is kept on `platform`: it parses and targets `all` or `platform`.
pub open spec fn kept_on(content: Seq<char>, platform: Seq<char>) -> bool {
    has_meta(content) && (fm_value(content, "platform:"@) is None || fm_value(
        content,
        "platform:"@,
    ).unwrap() == "all"@ || fm_value(content, "platform:"@).unwrap() == platform)
}

/// Whether a built-in playbook is written over the file at its destination:
/// always, unless that file exists and is explicitly of type `user`.
pub open spec fn spec_overwrites_builtin(existing: Option<Seq<char>>) -> bool {
    match existing {
        Some(c) => !(has_meta(c) && match fm_value(c, "type:"@) {
            Some(t) => t == "user"@,
            None => true,
        }),
        None => true,
    }
}

/// Whether the built-in playbook replaces the file that is on disk now
/// (`None` when there is none): user-owned files are never touched.
pub fn overwrites_builtin(existing: Option<&str>) -> (b: bool)
    ensures
        b == spec_overwrites_builtin(
            match existing {
                Some(c) => Some(c@),
                None => None,
            },
        ),
{
    match existing {
        Some(c) => match parse_frontmatter(c) {
            Some(m) => !str_eq(m.playbook_type.as_str(), "user"),
            None => true,
        },
        None => true,
    }
}

/// What a built-in playbook's file holds after the bootstrap, given the
/// built-in text and the file on disk before (`None` when there is none).
pub open spec fn bootstrapped(builtin: Seq<char>, existing: Option<Seq<char>>) -> Seq<char> {
    if spec_overwrites_builtin(existing) {
        builtin
    } else {
        existing.unwrap()
    }
}

/// The content of each built-in playbook's file after the bootstrap, for
/// pairs of the built-in text and the file on disk before: the built-in text,
/// unless the file there is user-owned, which keeps its content.
pub fn bootstrapped_contents(files: &Vec<(String, Option<String>)>) -> (r: Vec<String>)
    ensures
        r@.len() == files@.len(),
        forall|i: int|
            0 <= i < r@.len() ==> (#[trigger] r@[i])@ == bootstrapped(
                files@[i].0@,
                match files@[i].1 {
                    Some(c) => Some(c@),
                    None => None,
                },
            ),
{
    let mut out: Vec<String> = Vec::new();
    let mut i: usize = 0;
    while i < files.len()
        invariant
            i <= files@.len(),
            out@.len() == i,
            forall|k: int|
                0 <= k < i ==> (#[trigger] out@[k])@ == bootstrapped(
                    files@[k].0@,
                    match files@[k].1 {
                        Some(c) => Some(c@),
                        None => None,
                    },
                ),
        decreases files@.len() - i,
    {
        let (builtin, existing) = &files[i];
        let keep = match existing {
            Some(c) => !overwrites_builtin(Some(c.as_str())),
            None => false,
        };
        let text = if keep {
            match existing {
                Some(c) => c.clone(),
                None => builtin.clone(),
            }
        } else {
            builtin.clone()
        };
        out.push(text);
        i += 1;
    }
    out
}

/// The names of the kept files' frontmatter, in listing order.
pub open spec fn kept_names(contents: Seq<String>, kept: Seq<int>) -> Seq<Seq<char>> {
    Seq::new(kept.len(), |x: int| fm_value(contents[kept[x]]@, "name:"@).unwrap())
}

/// The registry's metadata is that of the files of `contents` kept on
/// `platform`, sorted by name, equal names in listing order.
pub open spec fn registry_metas(
    metas: Seq<PlaybookMeta>,
    contents: Seq<String>,
    platform: Seq<char>,
) -> bool {
    exists|kept: Seq<int>, perm: Seq<int>|
        {
            &&& forall|a: int, b: int| 0 <= a < b < kept.len() ==> kept[a] < kept[b]
            &&& forall|a: int| 0 <= a < kept.len() ==> 0 <= #[trigger] kept[a] < contents.len()
            &&& forall|j: int|
                0 <= j < contents.len() ==> (kept_on(#[trigger] contents[j]@, platform)
                    <==> kept.contains(j))
            &&& is_permutation(perm, kept.len() as int)
            &&& metas.len() == kept.len()
            &&& forall|a: int|
                0 <= a < perm.len() ==> meta_of(#[trigger] metas[a], contents[kept[perm[a]]]@)
            &&& stable_sorted(kept_names(contents, kept), perm, false)
        }
}

fn copy_meta(m: &PlaybookMeta) -> (r: PlaybookMeta)
    ensures
        r == *m,
{
    PlaybookMeta {
        name: m.name.clone(),
        description: m.description.clone(),
        platform: m.platform.clone(),
        last_reviewed: match &m.last_reviewed {
            Some(s) => Some(s.clone()),
            None => None,
        },
        author: match &m.author {
            Some(s) => Some(s.clone()),
            None => None,
        },
        playbook_type: m.playbook_type.clone(),
    }
}

impl PlaybookRegistry {
    /// The registry of the playbooks in `playbooks_dir`, given the texts of its
    /// `.md` files in listing order: the metadata of those with valid
    /// frontmatter that target `platform` or `all`, sorted by name.
    pub fn init(playbooks_dir: String, contents: &Vec<String>, platform: &str) -> (r: Self)
        ensures
            r.playbooks_dir == playbooks_dir,
            registry_metas(r.metas@, contents@, platform@),
    {
        let mut metas: Vec<PlaybookMeta> = Vec::new();
        let ghost mut kept: Seq<int> = Seq::empty();
        let mut i: usize = 0;
        while i < contents.len()
            invariant
                i <= contents@.len(),
                metas@.len() == kept.len(),
                forall|a: int, b: int| 0 <= a < b < kept.len() ==> kept[a] < kept[b],
                forall|a: int| 0 <= a < kept.len() ==> 0 <= #[trigger] kept[a] < i,
                forall|j: int|
                    0 <= j < i ==> (kept_on(#[trigger] contents@[j]@, platform@) <==> kept.contains(
                        j,
                    )),
                forall|a: int|
                    0 <= a < kept.len() ==> meta_of(#[trigger] metas@[a], contents@[kept[a]]@),
            decreases contents@.len() - i,
        {
            let ghost old_kept = kept;
            match parse_frontmatter(contents[i].as_str()) {
                Some(m) => {
                    if str_eq(m.platform.as_str(), "all") || str_eq(m.platform.as_str(), platform) {
                        metas.push(m);
                        proof {
                            kept = kept.push(i as int);
                        }
                    }
                },
                None => {},
            }
            proof {
                assert forall|j: int|
                    0 <= j < i + 1 implies (kept_on(#[trigger] contents@[j]@, platform@)
                    <==> kept.contains(j)) by {
                    if old_kept.contains(j) {
                        let a = choose|a: int| 0 <= a < old_kept.len() && old_kept[a] == j;
                        assert(kept[a] == j);
                    }
                    if kept.contains(j) {
                        let a = choose|a: int| 0 <= a < kept.len() && kept[a] == j;
                        if a < old_kept.len() {
                            assert(old_kept[a] == j);
                        }
                    }
                    if j == i {
                        assert(!old_kept.contains(j));
                        if kept.len() > old_kept.len() {
                            assert(kept[old_kept.len() as int] == j);
                        }
                    }
                }
            }
            i += 1;
        }
        let mut keys: Vec<Vec<char>> = Vec::new();
        let mut k: usize = 0;
        while k < metas.len()
            invariant
                k <= metas@.len(),
                keys@.len() == k,
                metas@.len() == kept.len(),
                forall|a: int| 0 <= a < kept.len() ==> 0 <= #[trigger] kept[a] < contents@.len(),
                forall|a: int|
                    0 <= a < kept.len() ==> meta_of(#[trigger] metas@[a], contents@[kept[a]]@),
                forall|a: int|
                    0 <= a < k ==> (#[trigger] keys@[a])@ == kept_names(contents@, kept)[a],
            decreases metas@.len() - k,
        {
            assert(meta_of(metas@[k as int], contents@[kept[k as int]]@));
            keys.push(chars_of(metas[k].name.as_str()));
            k += 1;
        }
        assert(keys@.map_values(|v: Vec<char>| v@) =~= kept_names(contents@, kept));
        let perm = stable_sort_order(&keys, false);
        let ghost pm = perm@.map_values(|x: usize| x as int);
        let mut sorted: Vec<PlaybookMeta> = Vec::new();
        let mut a: usize = 0;
        while a < perm.len()
            invariant
                a <= perm@.len(),
                pm == perm@.map_values(|x: usize| x as int),
                is_permutation(pm, kept.len() as int),
                metas@.len() == kept.len(),
                sorted@.len() == a,
                forall|b: int|
                    0 <= b < kept.len() ==> meta_of(#[trigger] metas@[b], contents@[kept[b]]@),
                forall|b: int|
                    0 <= b < a ==> meta_of(#[trigger] sorted@[b], contents@[kept[pm[b]]]@),
            decreases perm@.len() - a,
        {
            let x = perm[a];
            assert(pm[a as int] == x as int);
            sorted.push(copy_meta(&metas[x]));
            a += 1;
        }
        proof {
            assert(sorted@.len() == kept.len());
        }
        PlaybookRegistry { playbooks_dir, metas: sorted }
    }
}

// ── Reading a playbook ──

/// The file is the playbook `name`: its frontmatter names it so, or its
/// stem is `name`.
pub open spec fn file_is(f: PlaybookFile, name: Seq<char>) -> bool {
    (has_meta(f.content@) && fm_value(f.content@, "name:"@) == Some(name)) || f.stem@ == name
}

/// The positions of the files that are the playbook `name`, in listing order.
pub open spec fn matching(files: Seq<PlaybookFile>, name: Seq<char>) -> Seq<int>
    decreases files.len(),
{
    if files.len() == 0 {
        Seq::empty()
    } else {
        let rest = matching(files.drop_last(), name);
        if file_is(files.last(), name) {
            rest.push(files.len() - 1)
        } else {
            rest
        }
    }
}

/// The track of a playbook text: its frontmatter `type`, else `user`.
pub open spec fn origin_of(content: Seq<char>) -> Seq<char> {
    if has_meta(content) {
        match fm_value(content, "type:"@) {
            Some(t) => t,
            None => "user"@,
        }
    } else {
        "user"@
    }
}

/// The review date of a playbook text, else `unknown date`.
pub open spec fn date_of(content: Seq<char>) -> Seq<char> {
    if has_meta(content) {
        match fm_value(content, "last_reviewed:"@) {
            Some(d) => d,
            None => "unknown date"@,
        }
    } else {
        "unknown date"@
    }
}

/// A playbook text headed by a comment that names its track and date.
pub open spec fn annotated(content: Seq<char>) -> Seq<char> {
    "<!-- [origin: "@ + origin_of(content) + ", last updated: "@ + date_of(content) + "] -->\n"@
        + content
}

/// The separator between the tracks of one playbook.
pub open spec fn track_separator() -> Seq<char> {
    "\n\n---\n\n"@
}

/// What `read_playbook` gives for `name`: the one matching text, or every
/// matching text annotated, in descending order of track name (so `user`
/// before `system`; ties in listing order), joined by the separator.
pub open spec fn playbook_text(files: Seq<PlaybookFile>, name: Seq<char>, text: Seq<char>) -> bool {
    let ms = matching(files, name);
    if ms.len() == 1 {
        text == files[ms[0]].content@
    } else {
        exists|perm: Seq<int>|
            {
                &&& is_permutation(perm, ms.len() as int)
                &&& stable_sorted(
                    Seq::new(ms.len(), |x: int| origin_of(files[ms[x]].content@)),
                    perm,
                    true,
                )
                &&& text == joined(
                    Seq::new(ms.len(), |a: int| annotated(files[ms[perm[a]]].content@)),
                    track_separator(),
                )
            }
    }
}

impl PlaybookError {
    /// The message shown for the error.
    pub fn message(&self) -> (s: String)
        ensures
            s@ == (match self {
                PlaybookError::NotFound(n) => "Playbook '"@ + n@
                    + "' not found. Use `list_knowledge` with category 'playbooks' to see what's available."@,
                PlaybookError::MissingName => "Missing required parameter: name"@,
            }),
    {
        match self {
            PlaybookError::NotFound(n) => {
                let mut s = owned("Playbook '");
                push_str(&mut s, n.as_str());
                push_str(
                    &mut s,
                    "' not found. Use `list_knowledge` with category 'playbooks' to see what's available.",
                );
                s
            },
            PlaybookError::MissingName => owned("Missing required parameter: name"),
        }
    }
}

proof fn lemma_matching_step(files: Seq<PlaybookFile>, name: Seq<char>, i: int)
    requires
        0 <= i < files.len(),
    ensures
        matching(files.subrange(0, i + 1), name) == (if file_is(files[i], name) {
            matching(files.subrange(0, i), name).push(i)
        } else {
            matching(files.subrange(0, i), name)
        }),
        matching(files.subrange(0, i + 1), name).len() >= matching(files.subrange(0, i), name).len(),
{
    let pre = files.subrange(0, i + 1);
    assert(pre.drop_last() =~= files.subrange(0, i));
    assert(pre.last() == files[i]);
}

proof fn lemma_matching_bounds(files: Seq<PlaybookFile>, name: Seq<char>)
    ensures
        forall|a: int|
            0 <= a < matching(files, name).len() ==> 0 <= #[trigger] matching(files, name)[a]
                < files.len() && file_is(files[matching(files, name)[a]], name),
    decreases files.len(),
{
    if files.len() > 0 {
        lemma_matching_bounds(files.drop_last(), name);
        let rest = matching(files.drop_last(), name);
        assert forall|a: int| 0 <= a < rest.len() implies file_is(
            files[rest[a]],
            name,
        ) by {
            assert(files.drop_last()[rest[a]] == files[rest[a]]);
        }
    }
}

impl PlaybookRegistry {
    /// Read the playbook `name` from the files of the playbooks directory, in
    /// listing order: a file matches when its frontmatter `name` is `name` or
    /// its stem is. One match gives its text; several give every match
    /// annotated with its track and review date, in descending order of track
    /// name (`user` before `system`), joined
    /// by `---` rules.
    pub fn read_playbook(&self, name: &str, files: &Vec<PlaybookFile>) -> (r: Result<
        String,
        PlaybookError,
    >)
        ensures
            r is Err <==> matching(files@, name@).len() == 0,
            r matches Err(e) ==> e matches PlaybookError::NotFound(n) && n@ == name@,
            r matches Ok(s) ==> playbook_text(files@, name@, s@),
    {
        let mut contents: Vec<String> = Vec::new();
        let mut origins: Vec<Vec<char>> = Vec::new();
        let mut dates: Vec<String> = Vec::new();
        let mut i: usize = 0;
        assert(files@.subrange(0, 0) =~= Seq::<PlaybookFile>::empty());
        while i < files.len()
            invariant
                i <= files@.len(),
                contents@.len() == matching(files@.subrange(0, i as int), name@).len(),
                origins@.len() == contents@.len(),
                dates@.len() == contents@.len(),
                forall|a: int|
                    0 <= a < contents@.len() ==> {
                        let k = #[trigger] matching(files@.subrange(0, i as int), name@)[a];
                        &&& 0 <= k < i
                        &&& contents@[a]@ == files@[k].content@
                        &&& origins@[a]@ == origin_of(files@[k].content@)
                        &&& dates@[a]@ == date_of(files@[k].content@)
                    },
            decreases files@.len() - i,
        {
            proof {
                lemma_matching_step(files@, name@, i as int);
            }
            let f = &files[i];
            let meta = parse_frontmatter(f.content.as_str());
            let named = match &meta {
                Some(m) => str_eq(m.name.as_str(), name),
                None => false,
            };
            if named || str_eq(f.stem.as_str(), name) {
                let origin = match &meta {
                    Some(m) => chars_of(m.playbook_type.as_str()),
                    None => chars_of("user"),
                };
                let date = match &meta {
                    Some(m) => match &m.last_reviewed {
                        Some(d) => d.clone(),
                        None => owned("unknown date"),
                    },
                    None => owned("unknown date"),
                };
                contents.push(f.content.clone());
                origins.push(origin);
                dates.push(date);
            }
            i += 1;
        }
        assert(files@.subrange(0, files@.len() as int) =~= files@);
        let ghost ms = matching(files@, name@);
        if contents.len() == 0 {
            return Err(PlaybookError::NotFound(owned(name)));
        }
        if contents.len() == 1 {
            return Ok(contents[0].clone());
        }
        assert(origins@.map_values(|v: Vec<char>| v@) =~= Seq::new(
            ms.len(),
            |x: int| origin_of(files@[ms[x]].content@),
        ));
        let perm = stable_sort_order(&origins, true);
        let ghost pm = perm@.map_values(|x: usize| x as int);
        let ghost parts = Seq::new(ms.len(), |a: int| annotated(files@[ms[pm[a]]].content@));
        let mut out = String::new();
        let mut a: usize = 0;
        while a < perm.len()
            invariant
                a <= perm@.len(),
                perm@.len() == contents@.len(),
                contents@.len() == ms.len(),
                origins@.len() == ms.len(),
                dates@.len() == ms.len(),
                pm == perm@.map_values(|x: usize| x as int),
                is_permutation(pm, ms.len() as int),
                parts == Seq::new(ms.len(), |a: int| annotated(files@[ms[pm[a]]].content@)),
                forall|b: int|
                    0 <= b < ms.len() ==> {
                        &&& contents@[b]@ == files@[#[trigger] ms[b]].content@
                        &&& origins@[b]@ == origin_of(files@[ms[b]].content@)
                        &&& dates@[b]@ == date_of(files@[ms[b]].content@)
                    },
                a == 0 ==> out@.len() == 0,
                a > 0 ==> out@ == joined(parts.take(a as int), track_separator()),
            decreases perm@.len() - a,
        {
            let x = perm[a];
            assert(pm[a as int] == x as int);
            if a > 0 {
                push_str(&mut out, "\n\n---\n\n");
            }
            push_str(&mut out, "<!-- [origin: ");
            push_range(&mut out, &origins[x], 0, origins[x].len());
            push_str(&mut out, ", last updated: ");
            push_str(&mut out, dates[x].as_str());
            push_str(&mut out, "] -->\n");
            push_str(&mut out, contents[x].as_str());
            proof {
                assert(origins@[x as int]@.subrange(0, origins@[x as int]@.len() as int)
                    =~= origins@[x as int]@);
                if a == 0 {
                    assert(parts.take(1).len() == 1);
                    assert(out@ =~= parts[0]);
                } else {
                    crate::text::lemma_joined_step(parts, track_separator(), a as int);
                    assert(out@ =~= joined(parts.take(a as int), track_separator())
                        + track_separator() + parts[a as int]);
                }
            }
            a += 1;
        }
        assert(parts.take(ms.len() as int) =~= parts);
        Ok(out)
    }
}

/// The tool that loads a diagnostic playbook by name.
#[derive(Debug)]
pub struct ActivatePlaybookTool {
    pub registry: PlaybookRegistry,
}

impl ActivatePlaybookTool {
    pub fn new(registry: PlaybookRegistry) -> (r: Self)
        ensures
            r.registry == registry,
    {
        ActivatePlaybookTool { registry }
    }

    pub fn name(&self) -> (r: &'static str)
        ensures
            r@ == "activate_playbook"@,
    {
        "activate_playbook"
    }

    pub fn description(&self) -> (r: &'static str)
        ensures
            r@ == "Load a diagnostic playbook by name. Returns the full step-by-step protocol."@,
    {
        "Load a diagnostic playbook by name. Returns the full step-by-step protocol."
    }

    pub fn safety_tier(&self) -> (t: SafetyTier)
        ensures
            t == SafetyTier::ReadOnly,
    {
        SafetyTier::ReadOnly
    }

    /// The tool's input: a required string `name`.
    pub fn input_schema(&self) -> (r: Json)
        ensures
            schema_is(r, seq!["name"@], seq!["name"@], false),
    {
        let props: Vec<(String, Json)> = vec![
            (
                owned("name"),
                Json::Object(
                    vec![
                        (
                            owned("description"),
                            Json::Str(owned("The playbook name (e.g. 'network-diagnostics')")),
                        ),
                        (owned("type"), Json::Str(owned("string"))),
                    ],
                ),
            ),
        ];
        let required: Vec<String> = vec![owned("name")];
        proof {
            assert(crate::tools::field_names(props@) =~= seq!["name"@]);
            assert(crate::playbook_runtime::views(required@) =~= seq!["name"@]);
        }
        object_schema(props, required, false)
    }

    /// What the registry offers the model of this tool.
    pub fn spec(&self) -> (r: ToolSpec)
        ensures
            r.name@ == "activate_playbook"@,
            r.description@ == "Load a diagnostic playbook by name. Returns the full step-by-step protocol."@,
            r.tier == SafetyTier::ReadOnly,
            schema_is(r.input_schema, seq!["name"@], seq!["name"@], false),
    {
        ToolSpec {
            name: owned(self.name()),
            description: owned(self.description()),
            tier: self.safety_tier(),
            input_schema: self.input_schema(),
        }
    }

    /// Run the tool on its input, given the files of the playbooks directory:
    /// the playbook's text, with `{"playbook": name, "loaded": true}`.
    pub fn execute(&self, input: &Json, files: &Vec<PlaybookFile>) -> (r: Result<
        ReadOnlyResult,
        PlaybookError,
    >)
        ensures
            str_field(*input, "name"@) is None ==> r == Err::<ReadOnlyResult, PlaybookError>(
                PlaybookError::MissingName,
            ),
            str_field(*input, "name"@) matches Some(name) ==> {
                &&& (r is Err <==> matching(files@, name).len() == 0)
                &&& (r matches Err(e) ==> e matches PlaybookError::NotFound(n) && n@ == name)
                &&& (r matches Ok(res) ==> playbook_text(files@, name, res.output@)
                    && loaded_data(res.data, name))
            },
    {
        let name = match input.str_field("name") {
            Some(n) => n,
            None => return Err(PlaybookError::MissingName),
        };
        let content = self.registry.read_playbook(name, files)?;
        let data = Json::Object(
            vec![
                (owned("playbook"), Json::Str(owned(name))),
                (owned("loaded"), Json::Bool(true)),
            ],
        );
        Ok(ReadOnlyResult { output: content, data })
    }
}

/// The data of a loaded playbook: `{"playbook": name, "loaded": true}`.
pub open spec fn loaded_data(data: Json, name: Seq<char>) -> bool {
    &&& data is Object
    &&& data->Object_0@.len() == 2
    &&& data->Object_0@[0].0@ == "playbook"@
    &&& data->Object_0@[0].1 matches Json::Str(n) && n@ == name
    &&& data->Object_0@[1].0@ == "loaded"@
    &&& data->Object_0@[1].1 == Json::Bool(true)
}

} // verus!
