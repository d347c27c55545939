//! The conversations kept in memory: their messages, compressed summary,
//! secrets, locale and mode, looked up by session id.
use vstd::prelude::*;

use crate::llm::Message;
use crate::text::{owned, str_eq};

verus! {

/// A conversation.
#[derive(Debug)]
pub struct Session {
    pub id: String,
    pub messages: Vec<Message>,
    pub compressed_summary: Option<String>,
    /// When the session started (RFC 3339).
    pub created_at: String,
    /// Values of secure inputs, by secret name. They never enter the model's context.
    pub secrets: Vec<(String, String)>,
    /// The user's preferred locale (e.g. "en", "zh").
    pub locale: Option<String>,
    /// "default" for normal chat, "learn" for the knowledge-creation flow.
    pub mode: String,
}

/// The sessions, each id at most once.
#[derive(Debug)]
pub struct SessionStore {
    sessions: Vec<Session>,
}

/// No id occurs twice.
pub open spec fn ids_distinct(ss: Seq<Session>) -> bool {
    forall|a: int, b: int| 0 <= a < b < ss.len() ==> ss[a].id@ != ss[b].id@
}

/// The session with id `id`.
pub open spec fn session_of(ss: Seq<Session>, id: Seq<char>) -> Option<Session> {
    match find_session(ss, id) {
        Some(i) => Some(ss[i]),
        None => None,
    }
}

/// The position of the session with id `id`, when the ids are distinct.
pub open spec fn find_session(ss: Seq<Session>, id: Seq<char>) -> Option<int> {
    if exists|i: int| 0 <= i < ss.len() && ss[i].id@ == id {
        Some(choose|i: int| 0 <= i < ss.len() && ss[i].id@ == id)
    } else {
        None
    }
}

/// The value of the first secret named `name`.
pub open spec fn secret_lookup(secrets: Seq<(String, String)>, name: Seq<char>) -> Option<Seq<char>>
    decreases secrets.len(),
{
    if secrets.len() == 0 {
        None
    } else if secrets[0].0@ == name {
        Some(secrets[0].1@)
    } else {
        secret_lookup(secrets.drop_first(), name)
    }
}

/// The text of an optional string.
pub open spec fn opt_text(o: Option<String>) -> Option<Seq<char>> {
    match o {
        Some(s) => Some(s@),
        None => None,
    }
}

/// `b` is `a` with only the given field changed: these predicates say which
/// fields of a session stay.
pub open spec fn same_but_secrets(a: Session, b: Session) -> bool {
    &&& a.id == b.id
    &&& a.messages == b.messages
    &&& a.compressed_summary == b.compressed_summary
    &&& a.created_at == b.created_at
    &&& a.locale == b.locale
    &&& a.mode == b.mode
}

/// `b` is `a` with only its history (messages and summary) changed.
pub open spec fn same_but_history(a: Session, b: Session) -> bool {
    &&& a.id == b.id
    &&& a.created_at == b.created_at
    &&& a.secrets == b.secrets
    &&& a.locale == b.locale
    &&& a.mode == b.mode
}

/// `b` is `a` with only its locale changed.
pub open spec fn same_but_locale(a: Session, b: Session) -> bool {
    &&& a.id == b.id
    &&& a.messages == b.messages
    &&& a.compressed_summary == b.compressed_summary
    &&& a.created_at == b.created_at
    &&& a.secrets == b.secrets
    &&& a.mode == b.mode
}

/// `b` is `a` with only its mode changed.
pub open spec fn same_but_mode(a: Session, b: Session) -> bool {
    &&& a.id == b.id
    &&& a.messages == b.messages
    &&& a.compressed_summary == b.compressed_summary
    &&& a.created_at == b.created_at
    &&& a.secrets == b.secrets
    &&& a.locale == b.locale
}

/// Every session other than `id` is the same in both stores.
pub open spec fn others_unchanged(old_ss: Seq<Session>, new_ss: Seq<Session>, id: Seq<char>) -> bool {
    forall|other: Seq<char>| other != id ==> #[trigger] session_of(new_ss, other) == session_of(old_ss, other)
}

/// Calls `uuid::Uuid::new_v4` and formats it: a random id, which the
/// hyphenated form prints as 36 characters with hyphens at positions 8, 13,
/// 18 and 23. Which id comes out is chance and is not stated.
#[verifier::external_body]
fn new_session_id() -> (r: String)
    ensures
        r@.len() == 36,
        r@[8] == '-' && r@[13] == '-' && r@[18] == '-' && r@[23] == '-',
{
    uuid::Uuid::new_v4().to_string()
}

fn find_index(sessions: &Vec<Session>, id: &str) -> (r: Option<usize>)
    ensures
        r matches Some(i) ==> i < sessions@.len() && sessions@[i as int].id@ == id@,
        r is None ==> forall|i: int| 0 <= i < sessions@.len() ==> sessions@[i].id@ != id@,
{
    let mut i: usize = 0;
    while i < sessions.len()
        invariant
            i <= sessions@.len(),
            forall|k: int| 0 <= k < i ==> sessions@[k].id@ != id@,
        decreases sessions@.len() - i,
    {
        if str_eq(sessions[i].id.as_str(), id) {
            return Some(i);
        }
        i += 1;
    }
    None
}

proof fn lemma_find_unique(ss: Seq<Session>, i: int)
    requires
        ids_distinct(ss),
        0 <= i < ss.len(),
    ensures
        find_session(ss, ss[i].id@) == Some(i),
{
    let id = ss[i].id@;
    assert(exists|k: int| 0 <= k < ss.len() && ss[k].id@ == id);
    let c = choose|k: int| 0 <= k < ss.len() && ss[k].id@ == id;
    if c != i {
        if c < i {
            assert(ss[c].id@ != ss[i].id@);
        } else {
            assert(ss[i].id@ != ss[c].id@);
        }
    }
}

fn find_secret(secrets: &Vec<(String, String)>, name: &str) -> (r: Option<usize>)
    ensures
        r matches Some(i) ==> i < secrets@.len() && secrets@[i as int].0@ == name@ && secret_lookup(
            secrets@,
            name@,
        ) == Some(secrets@[i as int].1@) && forall|k: int| 0 <= k < i ==> secrets@[k].0@ != name@,
        r is None ==> secret_lookup(secrets@, name@) is None && forall|k: int|
            0 <= k < secrets@.len() ==> secrets@[k].0@ != name@,
{
    let mut i: usize = 0;
    assert(secrets@.subrange(0, secrets@.len() as int) =~= secrets@);
    while i < secrets.len()
        invariant
            i <= secrets@.len(),
            forall|k: int| 0 <= k < i ==> secrets@[k].0@ != name@,
            secret_lookup(secrets@, name@) == secret_lookup(
                secrets@.subrange(i as int, secrets@.len() as int),
                name@,
            ),
        decreases secrets@.len() - i,
    {
        let ghost rest = secrets@.subrange(i as int, secrets@.len() as int);
        assert(rest[0] == secrets@[i as int]);
        assert(rest.drop_first() =~= secrets@.subrange(i + 1, secrets@.len() as int));
        if str_eq(secrets[i].0.as_str(), name) {
            return Some(i);
        }
        i += 1;
    }
    None
}

proof fn lemma_secret_lookup_update(
    secrets: Seq<(String, String)>,
    i: int,
    entry: (String, String),
    name: Seq<char>,
)
    requires
        0 <= i < secrets.len(),
        secrets[i].0@ == entry.0@,
        forall|k: int| 0 <= k < i ==> secrets[k].0@ != entry.0@,
    ensures
        secret_lookup(secrets.update(i, entry), name) == (if name == entry.0@ {
            Some(entry.1@)
        } else {
            secret_lookup(secrets, name)
        }),
    decreases i,
{
    if i > 0 {
        assert(secrets.update(i, entry)[0] == secrets[0]);
        assert(secrets.update(i, entry).drop_first() =~= secrets.drop_first().update(i - 1, entry));
        lemma_secret_lookup_update(secrets.drop_first(), i - 1, entry, name);
    } else {
        assert(secrets.update(i, entry)[0] == entry);
        assert(secrets.update(i, entry).drop_first() =~= secrets.drop_first());
    }
}

proof fn lemma_secret_lookup_push(secrets: Seq<(String, String)>, entry: (String, String), name: Seq<char>)
    requires
        forall|k: int| 0 <= k < secrets.len() ==> secrets[k].0@ != entry.0@,
    ensures
        secret_lookup(secrets.push(entry), name) == (if name == entry.0@ {
            Some(entry.1@)
        } else {
            secret_lookup(secrets, name)
        }),
    decreases secrets.len(),
{
    reveal_with_fuel(secret_lookup, 2);
    if secrets.len() > 0 {
        assert(secrets.push(entry)[0] == secrets[0]);
        assert(secrets[0].0@ != entry.0@);
        assert(secrets.push(entry).drop_first() =~= secrets.drop_first().push(entry));
        lemma_secret_lookup_push(secrets.drop_first(), entry, name);
    } else {
        assert(secrets.push(entry)[0] == entry);
        assert(secrets.push(entry).drop_first() =~= Seq::<(String, String)>::empty());
    }
}

impl View for SessionStore {
    type V = Seq<Session>;

    /// The sessions in the order they were first stored.
    closed spec fn view(&self) -> Seq<Session> {
        self.sessions@
    }
}

impl SessionStore {
    pub fn new() -> (r: Self)
        ensures
            r@.len() == 0,
    {
        SessionStore { sessions: Vec::new() }
    }

    /// The store keeps each id at most once.
    #[verifier::type_invariant]
    spec fn ids_unique(self) -> bool {
        ids_distinct(self.sessions@)
    }

    /// Put a session in the store, in place of the one with its id if there is one.
    pub fn insert_session(&mut self, session: Session)
        ensures
            session_of(final(self)@, session.id@) == Some(session),
            others_unchanged(old(self)@, final(self)@, session.id@),
    {
        proof {
            use_type_invariant(&*self);
        }
        let mut ss: Vec<Session> = Vec::new();
        std::mem::swap(&mut ss, &mut self.sessions);
        let ghost sid = session.id@;
        match find_index(&ss, session.id.as_str()) {
            Some(i) => {
                let ghost before = ss@;
                ss.remove(i);
                ss.insert(i, session);
                proof {
                    assert(ss@ =~= before.update(i as int, session));
                    assert forall|a: int, b: int|
                        0 <= a < b < ss@.len() implies ss@[a].id@
                        != ss@[b].id@ by {
                        if a != i && b != i {
                            assert(before[a].id@ != before[b].id@);
                        } else if a == i {
                            assert(before[a].id@ != before[b].id@);
                        } else {
                            assert(before[a].id@ != before[b].id@);
                        }
                    }
                    lemma_find_unique(ss@, i as int);
                    assert forall|other: Seq<char>| other != sid implies #[trigger] session_of(
                        ss@,
                        other,
                    ) == session_of(before, other) by {
                        if exists|k: int| 0 <= k < before.len() && before[k].id@ == other {
                            let k = choose|k: int| 0 <= k < before.len() && before[k].id@ == other;
                            lemma_find_unique(before, k);
                            assert(k != i);
                            assert(ss@[k] == before[k]);
                            lemma_find_unique(ss@, k);
                        } else {
                            assert forall|k: int| 0 <= k < ss@.len() implies ss@[k].id@
                                != other by {
                                if k != i {
                                    assert(ss@[k] == before[k]);
                                }
                            }
                        }
                    }
                }
            },
            None => {
                let ghost before = ss@;
                ss.push(session);
                proof {
                    let n = before.len() as int;
                    assert forall|a: int, b: int|
                        0 <= a < b < ss@.len() implies ss@[a].id@
                        != ss@[b].id@ by {
                        if b == n {
                            assert(before[a].id@ != sid);
                        } else {
                            assert(before[a].id@ != before[b].id@);
                        }
                    }
                    lemma_find_unique(ss@, n);
                    assert forall|other: Seq<char>| other != sid implies #[trigger] session_of(
                        ss@,
                        other,
                    ) == session_of(before, other) by {
                        if exists|k: int| 0 <= k < before.len() && before[k].id@ == other {
                            let k = choose|k: int| 0 <= k < before.len() && before[k].id@ == other;
                            lemma_find_unique(before, k);
                            assert(ss@[k] == before[k]);
                            lemma_find_unique(ss@, k);
                        } else {
                            assert forall|k: int| 0 <= k < ss@.len() implies ss@[k].id@
                                != other by {
                                if k < n {
                                    assert(ss@[k] == before[k]);
                                }
                            }
                        }
                    }
                }
            },
        }
        self.sessions = ss;
    }

    /// Start a session with a fresh random id, no messages, no summary, no
    /// secrets, no locale and the default mode; its id is returned.
    pub fn create_session(&mut self, created_at: String) -> (id: String)
        ensures
            session_of(final(self)@, id@) matches Some(s) && s.messages@.len() == 0
                && s.compressed_summary is None && s.created_at == created_at
                && s.secrets@.len() == 0 && s.locale is None && s.mode@ == "default"@,
            others_unchanged(old(self)@, final(self)@, id@),
    {
        proof {
            use_type_invariant(&*self);
        }
        let id = new_session_id();
        let session = Session {
            id: id.clone(),
            messages: Vec::new(),
            compressed_summary: None,
            created_at,
            secrets: Vec::new(),
            locale: None,
            mode: owned("default"),
        };
        self.insert_session(session);
        id
    }

    /// The session with id `session_id`.
    pub fn get_session(&self, session_id: &str) -> (r: Option<&Session>)
        ensures
            r matches Some(s) ==> session_of(self@, session_id@) == Some(*s),
            r is None ==> session_of(self@, session_id@) is None,
    {
        proof {
            use_type_invariant(self);
        }
        match find_index(&self.sessions, session_id) {
            Some(i) => {
                proof {
                    lemma_find_unique(self.sessions@, i as int);
                }
                Some(&self.sessions[i])
            },
            None => None,
        }
    }

    /// Remove the session; whether there was one.
    pub fn end_session(&mut self, session_id: &str) -> (removed: bool)
        ensures
            removed == (session_of(old(self)@, session_id@) is Some),
            session_of(final(self)@, session_id@) is None,
            others_unchanged(old(self)@, final(self)@, session_id@),
    {
        proof {
            use_type_invariant(&*self);
        }
        let mut ss: Vec<Session> = Vec::new();
        std::mem::swap(&mut ss, &mut self.sessions);
        let ghost before = ss@;
        let removed = match find_index(&ss, session_id) {
            Some(i) => {
                proof {
                    lemma_find_unique(before, i as int);
                }
                ss.remove(i);
                proof {
                    assert forall|a: int, b: int|
                        0 <= a < b < ss@.len() implies ss@[a].id@
                        != ss@[b].id@ by {
                        let a2 = if a < i { a } else { a + 1 };
                        let b2 = if b < i { b } else { b + 1 };
                        assert(ss@[a] == before[a2]);
                        assert(ss@[b] == before[b2]);
                        assert(before[a2].id@ != before[b2].id@);
                    }
                    assert forall|k: int| 0 <= k < ss@.len() implies ss@[k].id@
                        != session_id@ by {
                        let k2 = if k < i { k } else { k + 1 };
                        assert(ss@[k] == before[k2]);
                        assert(before[k2].id@ != before[i as int].id@);
                    }
                    assert forall|other: Seq<char>| other != session_id@ implies #[trigger] session_of(
                        ss@,
                        other,
                    ) == session_of(before, other) by {
                        if exists|k: int| 0 <= k < before.len() && before[k].id@ == other {
                            let k = choose|k: int| 0 <= k < before.len() && before[k].id@ == other;
                            lemma_find_unique(before, k);
                            let k3 = if k < i { k } else { k - 1 };
                            assert(ss@[k3] == before[k]);
                            lemma_find_unique(ss@, k3);
                        } else {
                            assert forall|k: int| 0 <= k < ss@.len() implies ss@[k].id@
                                != other by {
                                let k2 = if k < i { k } else { k + 1 };
                                assert(ss@[k] == before[k2]);
                            }
                        }
                    }
                }
                true
            },
            None => false,
        };
        self.sessions = ss;
        removed
    }

    /// Keep a secret value for the session (nothing happens without the session).
    pub fn store_secret(&mut self, session_id: &str, name: &str, value: &str)
        ensures
            session_of(old(self)@, session_id@) is None ==> final(self)@ == old(self)@,
            session_of(old(self)@, session_id@) matches Some(before) ==> (session_of(
                final(self)@,
                session_id@,
            ) matches Some(after) && same_but_secrets(before, after) && forall|n: Seq<char>|
                #[trigger] secret_lookup(after.secrets@, n) == (if n == name@ {
                    Some(value@)
                } else {
                    secret_lookup(before.secrets@, n)
                })),
            others_unchanged(old(self)@, final(self)@, session_id@),
    {
        proof {
            use_type_invariant(&*self);
        }
        let i = match find_index(&self.sessions, session_id) {
            Some(i) => i,
            None => return,
        };
        proof {
            lemma_find_unique(self.sessions@, i as int);
        }
        let mut ss: Vec<Session> = Vec::new();
        std::mem::swap(&mut ss, &mut self.sessions);
        let mut session = ss.remove(i);
        let ghost before = session;
        let entry = (owned(name), owned(value));
        match find_secret(&session.secrets, name) {
            Some(k) => {
                let ghost old_secrets = session.secrets@;
                session.secrets.remove(k);
                session.secrets.insert(k, entry);
                proof {
                    assert(session.secrets@ =~= old_secrets.update(k as int, entry));
                    assert forall|n: Seq<char>| #[trigger] secret_lookup(session.secrets@, n) == (
                    if n == name@ {
                        Some(value@)
                    } else {
                        secret_lookup(old_secrets, n)
                    }) by {
                        lemma_secret_lookup_update(old_secrets, k as int, entry, n);
                    }
                }
            },
            None => {
                let ghost old_secrets = session.secrets@;
                session.secrets.push(entry);
                proof {
                    assert forall|n: Seq<char>| #[trigger] secret_lookup(session.secrets@, n) == (
                    if n == name@ {
                        Some(value@)
                    } else {
                        secret_lookup(old_secrets, n)
                    }) by {
                        lemma_secret_lookup_push(old_secrets, entry, n);
                    }
                }
            },
        }
        let ghost after = session;
        let ghost mid = ss@;
        ss.insert(i, session);
        proof {
            let ghost orig = mid.insert(i as int, before);
            assert(orig =~= old(self).sessions@);
            assert(ss@ =~= orig.update(i as int, after));
            assert(ids_distinct(ss@)) by {
                assert forall|a: int, b: int|
                    0 <= a < b < ss@.len() implies ss@[a].id@
                    != ss@[b].id@ by {
                    assert(orig[a].id@ != orig[b].id@);
                }
            }
            lemma_find_unique(ss@, i as int);
            assert forall|other: Seq<char>| other != session_id@ implies #[trigger] session_of(
                ss@,
                other,
            ) == session_of(orig, other) by {
                if exists|k: int| 0 <= k < orig.len() && orig[k].id@ == other {
                    let k = choose|k: int| 0 <= k < orig.len() && orig[k].id@ == other;
                    lemma_find_unique(orig, k);
                    lemma_find_unique(ss@, k);
                } else {
                    assert forall|k: int| 0 <= k < ss@.len() implies ss@[k].id@
                        != other by {
                        assert(ss@[k].id@ == orig[k].id@);
                    }
                }
            }
        }
        self.sessions = ss;
    }

    /// The secret value stored for the session under `name`.
    pub fn get_secret(&self, session_id: &str, name: &str) -> (r: Option<String>)
        ensures
            r matches Some(v) ==> session_of(self@, session_id@) matches Some(s)
                && secret_lookup(s.secrets@, name@) == Some(v@),
            r is None ==> (session_of(self@, session_id@) matches Some(s) ==> secret_lookup(
                s.secrets@,
                name@,
            ) is None),
    {
        proof {
            use_type_invariant(self);
        }
        match self.get_session(session_id) {
            Some(s) => match find_secret(&s.secrets, name) {
                Some(k) => Some(s.secrets[k].1.clone()),
                None => None,
            },
            None => None,
        }
    }

    /// Set the session's locale (nothing happens without the session).
    pub fn set_locale(&mut self, session_id: &str, locale: &str)
        ensures
            session_of(old(self)@, session_id@) is None ==> final(self)@ == old(self)@,
            session_of(old(self)@, session_id@) matches Some(before) ==> (session_of(
                final(self)@,
                session_id@,
            ) matches Some(after) && same_but_locale(before, after) && opt_text(after.locale)
                == Some(locale@)),
            others_unchanged(old(self)@, final(self)@, session_id@),
    {
        proof {
            use_type_invariant(&*self);
        }
        let i = match find_index(&self.sessions, session_id) {
            Some(i) => i,
            None => return,
        };
        proof {
            lemma_find_unique(self.sessions@, i as int);
        }
        let mut ss: Vec<Session> = Vec::new();
        std::mem::swap(&mut ss, &mut self.sessions);
        let ghost mid0 = ss@;
        let mut session = ss.remove(i);
        session.locale = Some(owned(locale));
        let ghost after = session;
        ss.insert(i, session);
        proof {
            assert(ss@ =~= mid0.update(i as int, after));
            Self::lemma_updated(ss@, mid0, i as int, after);
        }
        self.sessions = ss;
    }

    /// The session's locale.
    pub fn get_locale(&self, session_id: &str) -> (r: Option<String>)
        ensures
            r matches Some(l) ==> session_of(self@, session_id@) matches Some(s)
                && opt_text(s.locale) == Some(l@),
            r is None ==> (session_of(self@, session_id@) matches Some(s) ==> s.locale is None),
    {
        proof {
            use_type_invariant(self);
        }
        match self.get_session(session_id) {
            Some(s) => match &s.locale {
                Some(l) => Some(l.clone()),
                None => None,
            },
            None => None,
        }
    }

    /// Set the session's mode (nothing happens without the session).
    pub fn set_mode(&mut self, session_id: &str, mode: &str)
        ensures
            session_of(old(self)@, session_id@) is None ==> final(self)@ == old(self)@,
            session_of(old(self)@, session_id@) matches Some(before) ==> (session_of(
                final(self)@,
                session_id@,
            ) matches Some(after) && same_but_mode(before, after) && after.mode@ == mode@),
            others_unchanged(old(self)@, final(self)@, session_id@),
    {
        proof {
            use_type_invariant(&*self);
        }
        let i = match find_index(&self.sessions, session_id) {
            Some(i) => i,
            None => return,
        };
        proof {
            lemma_find_unique(self.sessions@, i as int);
        }
        let mut ss: Vec<Session> = Vec::new();
        std::mem::swap(&mut ss, &mut self.sessions);
        let ghost mid0 = ss@;
        let mut session = ss.remove(i);
        session.mode = owned(mode);
        let ghost after = session;
        ss.insert(i, session);
        proof {
            assert(ss@ =~= mid0.update(i as int, after));
            Self::lemma_updated(ss@, mid0, i as int, after);
        }
        self.sessions = ss;
    }

    /// Append a message to the session's history (nothing happens without the session).
    pub fn push_message(&mut self, session_id: &str, message: Message)
        ensures
            session_of(old(self)@, session_id@) is None ==> final(self)@ == old(self)@,
            session_of(old(self)@, session_id@) matches Some(before) ==> (session_of(
                final(self)@,
                session_id@,
            ) matches Some(after) && same_but_history(before, after)
                && after.compressed_summary == before.compressed_summary
                && after.messages@ == before.messages@.push(message)),
            others_unchanged(old(self)@, final(self)@, session_id@),
    {
        proof {
            use_type_invariant(&*self);
        }
        let i = match find_index(&self.sessions, session_id) {
            Some(i) => i,
            None => return,
        };
        proof {
            lemma_find_unique(self.sessions@, i as int);
        }
        let mut ss: Vec<Session> = Vec::new();
        std::mem::swap(&mut ss, &mut self.sessions);
        let ghost mid0 = ss@;
        let mut session = ss.remove(i);
        session.messages.push(message);
        let ghost after = session;
        ss.insert(i, session);
        proof {
            assert(ss@ =~= mid0.update(i as int, after));
            Self::lemma_updated(ss@, mid0, i as int, after);
        }
        self.sessions = ss;
    }

    /// Replace the session's older history by a summary: the messages before
    /// `split_at` go, the summary takes the place of the previous one.
    pub fn compress_history(&mut self, session_id: &str, split_at: usize, summary: String)
        requires
            session_of(old(self)@, session_id@) matches Some(s) ==> split_at
                <= s.messages@.len(),
        ensures
            session_of(old(self)@, session_id@) is None ==> final(self)@ == old(self)@,
            session_of(old(self)@, session_id@) matches Some(before) ==> (session_of(
                final(self)@,
                session_id@,
            ) matches Some(after) && same_but_history(before, after)
                && after.compressed_summary == Some(summary)
                && after.messages@ == before.messages@.subrange(
                split_at as int,
                before.messages@.len() as int,
            )),
            others_unchanged(old(self)@, final(self)@, session_id@),
    {
        proof {
            use_type_invariant(&*self);
        }
        let i = match find_index(&self.sessions, session_id) {
            Some(i) => i,
            None => return,
        };
        proof {
            lemma_find_unique(self.sessions@, i as int);
        }
        let mut ss: Vec<Session> = Vec::new();
        std::mem::swap(&mut ss, &mut self.sessions);
        let ghost mid0 = ss@;
        let mut session = ss.remove(i);
        let kept = session.messages.split_off(split_at);
        session.messages = kept;
        session.compressed_summary = Some(summary);
        let ghost after = session;
        ss.insert(i, session);
        proof {
            assert(ss@ =~= mid0.update(i as int, after));
            Self::lemma_updated(ss@, mid0, i as int, after);
        }
        self.sessions = ss;
    }

    proof fn lemma_updated(now: Seq<Session>, before: Seq<Session>, i: int, after: Session)
        requires
            ids_distinct(before),
            0 <= i < before.len(),
            after.id == before[i].id,
            now == before.update(i, after),
        ensures
            ids_distinct(now),
            session_of(now, after.id@) == Some(after),
            others_unchanged(before, now, after.id@),
    {
        assert forall|a: int, b: int|
            0 <= a < b < now.len() implies now[a].id@ != now[b].id@ by {
            assert(before[a].id@ != before[b].id@);
        }
        lemma_find_unique(now, i);
        assert forall|other: Seq<char>| other != after.id@ implies #[trigger] session_of(
            now,
            other,
        ) == session_of(before, other) by {
            if exists|k: int| 0 <= k < before.len() && before[k].id@ == other {
                let k = choose|k: int| 0 <= k < before.len() && before[k].id@ == other;
                lemma_find_unique(before, k);
                lemma_find_unique(now, k);
            } else {
                assert forall|k: int| 0 <= k < now.len() implies now[k].id@
                    != other by {
                    assert(now[k].id@ == before[k].id@);
                }
            }
        }
    }
}

} // verus!
