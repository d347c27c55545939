//! The consumer backend: entitlements and the paywall, the offline grace of
//! a cached entitlement, how a request is authenticated, and the tokens kept
//! on disk.
use vstd::prelude::*;

use crate::json::{str_field, Json};
use crate::text::{contains, owned, push_str, str_contains, str_eq, trim, trimmed};
use vstd::string::StrSliceExecFns;

verus! {

/// The production backend.
pub const PRODUCTION_URL: &'static str = "https://noah-consumer.fly.dev";

/// The local development backend.
pub const DEVELOPMENT_URL: &'static str = "http://localhost:8788";

/// How long a cached entitlement is trusted offline: 72 hours, in milliseconds.
pub const OFFLINE_GRACE_MS: i64 = 259200000;

/// The file that caches the entitlement.
pub const ENTITLEMENT_CACHE_FILE: &'static str = "entitlement_cache.json";

/// The file that holds the session token.
pub const SESSION_FILE: &'static str = "session.txt";

/// The file that holds the device id.
pub const DEVICE_ID_FILE: &'static str = "device_id.txt";

/// What the user is entitled to.
#[derive(Debug, Clone)]
pub struct Entitlement {
    pub plan: Option<String>,
    pub status: String,
    pub trial_started_at: Option<i64>,
    pub trial_ends_at: Option<i64>,
    pub period_start: Option<i64>,
    pub period_end: Option<i64>,
    pub usage_used: i64,
    pub usage_limit: i64,
    pub fix_count_total: i64,
}

/// The answer to a completed fix.
#[derive(Debug, Clone)]
pub struct FixCompletedResponse {
    pub fix_count_total: i64,
    pub usage_used: i64,
    pub entitlement: Entitlement,
}

/// The answer to a magic-link request; a session token when the server
/// signs the user in at once.
#[derive(Debug, Clone)]
pub struct MagicLinkResponse {
    pub ok: bool,
    pub session_token: Option<String>,
}

/// The answer to a confirmed checkout.
#[derive(Debug, Clone)]
pub struct ConfirmCheckoutResponse {
    pub ok: bool,
    pub session_token: Option<String>,
    pub entitlement: Option<Entitlement>,
}

/// An entitlement as cached, with when it was fetched (milliseconds since the epoch).
#[derive(Debug, Clone)]
pub struct CachedEntitlement {
    pub entitlement: Entitlement,
    pub fetched_at: i64,
}

/// Either a signed-in session token or an anonymous device id.
#[derive(Debug, Clone)]
pub enum Auth<'a> {
    Session(&'a str),
    Device(&'a str),
}

/// The backend: the override when one is set, else the development server in
/// debug builds and production otherwise.
pub fn base_url(override_url: Option<&str>, debug_build: bool) -> (r: String)
    ensures
        r@ == (match override_url {
            Some(u) => u@,
            None => if debug_build {
                DEVELOPMENT_URL@
            } else {
                PRODUCTION_URL@
            },
        }),
{
    match override_url {
        Some(u) => owned(u),
        None => if debug_build {
            owned(DEVELOPMENT_URL)
        } else {
            owned(PRODUCTION_URL)
        },
    }
}

/// The user is paywalled: no paywall while there is no plan or a trial,
/// an active plan is paywalled once its usage reaches the limit, every other
/// status is paywalled.
pub open spec fn spec_is_paywalled(status: Seq<char>, used: i64, limit: i64) -> bool {
    if status == "none"@ || status == "trialing"@ {
        false
    } else if status == "active"@ {
        used >= limit
    } else {
        true
    }
}

/// Whether the user is currently paywalled.
pub fn is_paywalled(ent: &Entitlement) -> (b: bool)
    ensures
        b == spec_is_paywalled(ent.status@, ent.usage_used, ent.usage_limit),
{
    let s = ent.status.as_str();
    if str_eq(s, "none") || str_eq(s, "trialing") {
        false
    } else if str_eq(s, "active") {
        ent.usage_used >= ent.usage_limit
    } else {
        true
    }
}

/// A cached entitlement is trusted until 72 hours after it was fetched.
pub open spec fn spec_within_grace(fetched_at: i64, now_ms: i64) -> bool {
    now_ms - fetched_at <= OFFLINE_GRACE_MS
}

/// Whether a cached entitlement may still be used offline at `now_ms`.
pub fn is_within_offline_grace(cached: &CachedEntitlement, now_ms: i64) -> (b: bool)
    ensures
        b == spec_within_grace(cached.fetched_at, now_ms),
{
    (now_ms as i128) - (cached.fetched_at as i128) <= OFFLINE_GRACE_MS as i128
}

/// The auth to use: the session when signed in, else the device id.
pub fn auth_ref<'a>(session: &'a Option<String>, device: &'a Option<String>) -> (r: Option<Auth<'a>>)
    ensures
        session matches Some(t) ==> r matches Some(Auth::Session(s)) && s@ == t@,
        session is None ==> (device matches Some(d) ==> r matches Some(Auth::Device(s)) && s@ == d@),
        session is None && device is None ==> r is None,
{
    match session {
        Some(t) => Some(Auth::Session(t.as_str())),
        None => match device {
            Some(d) => Some(Auth::Device(d.as_str())),
            None => None,
        },
    }
}

/// The header that authenticates a request: a bearer session token, or the device id.
pub fn auth_header(auth: &Auth) -> (r: (&'static str, String))
    ensures
        auth matches Auth::Session(t) ==> r.0@ == "Authorization"@ && r.1@ == "Bearer "@ + t@,
        auth matches Auth::Device(d) ==> r.0@ == "X-Device-Id"@ && r.1@ == d@,
{
    match auth {
        Auth::Session(t) => {
            let mut v = owned("Bearer ");
            push_str(&mut v, t);
            ("Authorization", v)
        },
        Auth::Device(d) => ("X-Device-Id", owned(d)),
    }
}

/// What reading a file gave.
#[derive(Debug, Clone, PartialEq, Eq)]
pub enum FileRead {
    /// The file's text.
    Contents(String),
    /// There is no such file.
    NotFound,
    /// Reading failed with this error.
    Failed(String),
}

/// A stored token: the file's text trimmed, absent when blank or missing,
/// an error `read {what}: {error}` when reading failed.
pub open spec fn spec_stored_token(read: FileRead, what: Seq<char>) -> Result<Option<Seq<char>>, Seq<char>> {
    match read {
        FileRead::Contents(s) => if trim(s@).len() == 0 {
            Ok(None)
        } else {
            Ok(Some(trim(s@)))
        },
        FileRead::NotFound => Ok(None),
        FileRead::Failed(e) => Err("read "@ + what + ": "@ + e@),
    }
}

fn stored_token(read: &FileRead, what: &str) -> (r: Result<Option<String>, String>)
    ensures
        r matches Ok(Some(t)) ==> spec_stored_token(*read, what@) == Ok::<Option<Seq<char>>, Seq<char>>(Some(t@)),
        r matches Ok(None) ==> spec_stored_token(*read, what@) == Ok::<Option<Seq<char>>, Seq<char>>(None),
        r matches Err(e) ==> spec_stored_token(*read, what@) == Err::<Option<Seq<char>>, Seq<char>>(e@),
{
    match read {
        FileRead::Contents(s) => {
            let t = trimmed(s.as_str());
            if t.as_str().unicode_len() == 0 {
                Ok(None)
            } else {
                Ok(Some(t))
            }
        },
        FileRead::NotFound => Ok(None),
        FileRead::Failed(e) => {
            let mut m = owned("read ");
            push_str(&mut m, what);
            push_str(&mut m, ": ");
            push_str(&mut m, e.as_str());
            Err(m)
        },
    }
}

/// The session token in the session file (see `spec_stored_token`).
pub fn session_token_from(read: &FileRead) -> (r: Result<Option<String>, String>)
    ensures
        r matches Ok(Some(t)) ==> spec_stored_token(*read, "session"@) == Ok::<Option<Seq<char>>, Seq<char>>(Some(t@)),
        r matches Ok(None) ==> spec_stored_token(*read, "session"@) == Ok::<Option<Seq<char>>, Seq<char>>(None),
        r matches Err(e) ==> spec_stored_token(*read, "session"@) == Err::<Option<Seq<char>>, Seq<char>>(e@),
{
    stored_token(read, "session")
}

/// The device id in the device-id file (see `spec_stored_token`).
pub fn device_id_from(read: &FileRead) -> (r: Result<Option<String>, String>)
    ensures
        r matches Ok(Some(t)) ==> spec_stored_token(*read, "device_id"@) == Ok::<Option<Seq<char>>, Seq<char>>(Some(t@)),
        r matches Ok(None) ==> spec_stored_token(*read, "device_id"@) == Ok::<Option<Seq<char>>, Seq<char>>(None),
        r matches Err(e) ==> spec_stored_token(*read, "device_id"@) == Err::<Option<Seq<char>>, Seq<char>>(e@),
{
    stored_token(read, "device_id")
}

/// The session file, as read, holds a token.
pub open spec fn signed_in(read: FileRead) -> bool {
    spec_stored_token(read, "session"@) matches Ok(Some(_))
}

/// Whether the user is signed in: the session file holds a token.
pub fn has_session(read: &FileRead) -> (b: bool)
    ensures
        b == signed_in(*read),
{
    match session_token_from(read) {
        Ok(Some(_)) => true,
        _ => false,
    }
}

/// The text written to the session file: the token trimmed.
pub fn session_file_text(token: &str) -> (r: String)
    ensures
        r@ == trim(token@),
{
    trimmed(token)
}

/// The checkout or portal URL in a billing answer.
pub fn billing_url(body: &Json, what: &str) -> (r: Result<String, String>)
    ensures
        str_field(*body, "url"@) matches Some(u) ==> r matches Ok(s) && s@ == u,
        str_field(*body, "url"@) is None ==> (r matches Err(e) && e@ == what@
            + " response missing url"@),
{
    match body.str_field("url") {
        Some(u) => Ok(owned(u)),
        None => {
            let mut m = owned(what);
            push_str(&mut m, " response missing url");
            Err(m)
        },
    }
}

/// What a failed entitlement fetch falls back to.
#[derive(Debug, Clone, Copy, PartialEq, Eq)]
pub enum EntitlementFallback {
    /// The server revoked the session: sign out and drop the cache.
    SignOut,
    /// Use the cached entitlement.
    UseCached,
    /// There is no entitlement to show.
    Nothing,
}

/// What a failed entitlement fetch falls back to: a 401 with a session signs
/// out; else the cache while it is within its grace; else nothing.
pub fn entitlement_fallback(
    error: &str,
    signed_in: bool,
    cached: Option<&CachedEntitlement>,
    now_ms: i64,
) -> (r: EntitlementFallback)
    ensures
        r == (if contains(error@, "401"@) && signed_in {
            EntitlementFallback::SignOut
        } else if cached matches Some(c) && spec_within_grace(c.fetched_at, now_ms) {
            EntitlementFallback::UseCached
        } else {
            EntitlementFallback::Nothing
        }),
{
    if str_contains(error, "401") && signed_in {
        return EntitlementFallback::SignOut;
    }
    match cached {
        Some(c) => if is_within_offline_grace(c, now_ms) {
            EntitlementFallback::UseCached
        } else {
            EntitlementFallback::Nothing
        },
        None => EntitlementFallback::Nothing,
    }
}

} // verus!
