//! Pairing a phone with the desktop and the requests it may make: the
//! one-time pairing token with its lockout, the shared secret that every
//! other request must carry, and the answers of the mobile endpoints.
use rand::Rng;
use vstd::prelude::*;

use crate::json::{json_text, json_to_string, Json, JsonNumber};
use crate::text::{owned, push_str, str_eq, str_starts_with, starts_with};

verus! {

/// A pairing token is valid for five minutes.
pub const TOKEN_TTL_MS: u64 = 300000;

/// After this many failed pairing attempts, pairing is locked until a new QR code.
pub const MAX_FAILED_ATTEMPTS: u32 = 5;

/// Length of a pairing token.
pub const PAIRING_TOKEN_LEN: usize = 32;

/// Length of a device secret.
pub const DEVICE_SECRET_LEN: usize = 48;

/// The name the desktop gives itself to the phone.
pub const DESKTOP_NAME: &'static str = "Noah Desktop";

/// A paired phone.
#[derive(Debug, Clone)]
pub struct PairedDevice {
    pub device_id: String,
    pub secret: String,
    pub device_name: String,
    pub paired_at: String,
}

/// A pairing token offered by the QR code, with when it was made (a
/// monotonic clock, in milliseconds).
#[derive(Debug, Clone)]
pub struct PendingToken {
    pub token: String,
    pub created_at_ms: u64,
}

/// The pairing state of the desktop.
#[derive(Debug, Clone)]
pub struct PairingState {
    pub pending_token: Option<PendingToken>,
    pub paired_device: Option<PairedDevice>,
    pub failed_attempts: u32,
}

/// What the QR code holds.
#[derive(Debug, Clone)]
pub struct PairingQrData {
    pub host: String,
    pub port: u16,
    pub token: String,
    pub qr_json: String,
}

/// A phone's pairing request.
#[derive(Debug, Clone)]
pub struct PairRequest {
    pub token: String,
    pub device_name: String,
}

/// The desktop's answer to a successful pairing.
#[derive(Debug, Clone)]
pub struct PairResponse {
    pub device_id: String,
    pub secret: String,
    pub desktop_name: String,
}

/// A photo triage request from the phone.
#[derive(Debug, Clone)]
pub struct TriageRequest {
    /// What the phone's vision model made of the photo.
    pub analysis: String,
    /// The user's caption or question.
    pub caption: Option<String>,
}

/// The answer to a triage request.
#[derive(Debug, Clone)]
pub struct TriageResponse {
    pub session_id: String,
    pub status: String,
}

/// A phone's answer to an approval request.
#[derive(Debug, Clone, Copy)]
pub struct ApproveRequest {
    pub approve: bool,
}

/// The text is made of ASCII letters and digits.
pub open spec fn is_alphanumeric(s: Seq<char>) -> bool {
    forall|i: int|
        0 <= i < s.len() ==> ('a' <= #[trigger] s[i] <= 'z' || 'A' <= s[i] <= 'Z' || '0' <= s[i]
            <= '9')
}

/// Draws `len` characters from `rand::distributions::Alphanumeric` with the
/// thread's generator: random ASCII letters and digits. Which ones is chance
/// and is not stated.
#[verifier::external_body]
fn random_alphanumeric(len: usize) -> (r: String)
    ensures
        r@.len() == len,
        is_alphanumeric(r@),
{
    rand::thread_rng().sample_iter(&rand::distributions::Alphanumeric).take(len).map(char::from).collect()
}

/// The token's age at `now_ms` (zero when the clock reads earlier).
pub open spec fn token_age(created_at_ms: u64, now_ms: u64) -> int {
    if now_ms >= created_at_ms {
        now_ms - created_at_ms
    } else {
        0
    }
}

/// The request's token is the pending one and is less than five minutes old.
pub open spec fn token_valid(state: PairingState, token: Seq<char>, now_ms: u64) -> bool {
    match state.pending_token {
        Some(pt) => pt.token@ == token && token_age(pt.created_at_ms, now_ms) < TOKEN_TTL_MS,
        None => false,
    }
}

/// A pairing request at `now_ms`: locked after five failures, with nothing
/// changed; a wrong or expired token counts one more failure; a valid one
/// pairs `device` and is used up.
pub open spec fn spec_pair(state: PairingState, token: Seq<char>, now_ms: u64, device: PairedDevice) -> (
    PairingState,
    PairOutcome,
) {
    if state.failed_attempts >= MAX_FAILED_ATTEMPTS {
        (state, PairOutcome::Locked)
    } else if !token_valid(state, token, now_ms) {
        (PairingState { failed_attempts: (state.failed_attempts + 1) as u32, ..state }, PairOutcome::Rejected)
    } else {
        (
            PairingState { paired_device: Some(device), pending_token: None, ..state },
            PairOutcome::Paired,
        )
    }
}

/// The outcome of a pairing request.
#[derive(Debug, Clone, PartialEq, Eq)]
pub enum PairOutcome {
    /// Too many failed attempts: answered 429 until a new QR code.
    Locked,
    /// Wrong or expired token: answered 401.
    Rejected,
    /// Paired: answered 200 with the device id and secret.
    Paired,
}

impl PairingState {
    /// No pairing, no pending token, no failures.
    pub fn new() -> (r: Self)
        ensures
            r.pending_token is None,
            r.paired_device is None,
            r.failed_attempts == 0,
    {
        PairingState { pending_token: None, paired_device: None, failed_attempts: 0 }
    }

    /// Offer a fresh token (a new QR code), which also lifts the lockout.
    pub fn offer_token(&mut self, token: String, now_ms: u64)
        ensures
            final(self).pending_token matches Some(pt) && pt.token == token && pt.created_at_ms
                == now_ms,
            final(self).failed_attempts == 0,
            final(self).paired_device == old(self).paired_device,
    {
        self.pending_token = Some(PendingToken { token, created_at_ms: now_ms });
        self.failed_attempts = 0;
    }

    /// Handle a pairing request at `now_ms` (see `spec_pair`).
    pub fn pair(&mut self, token: &str, now_ms: u64, device: PairedDevice) -> (r: PairOutcome)
        ensures
            (*final(self), r) == spec_pair(*old(self), token@, now_ms, device),
    {
        if self.failed_attempts >= MAX_FAILED_ATTEMPTS {
            return PairOutcome::Locked;
        }
        let valid = match &self.pending_token {
            Some(pt) => {
                let age = if now_ms >= pt.created_at_ms {
                    now_ms - pt.created_at_ms
                } else {
                    0
                };
                str_eq(pt.token.as_str(), token) && age < TOKEN_TTL_MS
            },
            None => false,
        };
        if !valid {
            self.failed_attempts = self.failed_attempts + 1;
            return PairOutcome::Rejected;
        }
        self.paired_device = Some(device);
        self.pending_token = None;
        PairOutcome::Paired
    }

    /// Forget the paired phone.
    pub fn unpair(&mut self)
        ensures
            final(self).paired_device is None,
            final(self).pending_token == old(self).pending_token,
            final(self).failed_attempts == old(self).failed_attempts,
    {
        self.paired_device = None;
    }
}

/// A fresh pairing token: 32 random ASCII letters and digits.
pub fn new_pairing_token() -> (r: String)
    ensures
        r@.len() == PAIRING_TOKEN_LEN,
        is_alphanumeric(r@),
{
    random_alphanumeric(PAIRING_TOKEN_LEN)
}

/// A fresh device secret: 48 random ASCII letters and digits.
pub fn new_device_secret() -> (r: String)
    ensures
        r@.len() == DEVICE_SECRET_LEN,
        is_alphanumeric(r@),
{
    random_alphanumeric(DEVICE_SECRET_LEN)
}

/// The JSON form of the QR payload (fields sorted by key).
pub open spec fn qr_json_is(v: Json, host: Seq<char>, port: u16, token: Seq<char>) -> bool {
    &&& v is Object
    &&& v->Object_0@.len() == 4
    &&& v->Object_0@[0].0@ == "host"@ && crate::playbook_runtime::str_is(v->Object_0@[0].1, host)
    &&& v->Object_0@[1].0@ == "port"@ && v->Object_0@[1].1 == Json::Number(
        JsonNumber::PosInt(port as u64),
    )
    &&& v->Object_0@[2].0@ == "token"@ && crate::playbook_runtime::str_is(v->Object_0@[2].1, token)
    &&& v->Object_0@[3].0@ == "version"@ && v->Object_0@[3].1 == Json::Number(JsonNumber::PosInt(1))
}

/// The QR code's data for a host, port and token.
pub fn pairing_qr_data(host: String, port: u16, token: String) -> (r: PairingQrData)
    ensures
        r.host == host,
        r.port == port,
        r.token == token,
        exists|v: Json| qr_json_is(v, host@, port, token@) && r.qr_json@ == json_text(v),
{
    let v = Json::Object(
        vec![
            (owned("host"), Json::Str(host.clone())),
            (owned("port"), Json::Number(JsonNumber::PosInt(port as u64))),
            (owned("token"), Json::Str(token.clone())),
            (owned("version"), Json::Number(JsonNumber::PosInt(1))),
        ],
    );
    let qr_json = json_to_string(&v);
    PairingQrData { host, port, token, qr_json }
}

/// How the mobile server answers a request before its handler.
#[derive(Debug, Clone, Copy, PartialEq, Eq)]
pub enum AuthDecision {
    /// Let the request through.
    Pass,
    /// No phone is paired: 401 `Not paired`.
    NotPaired,
    /// The secret is missing or wrong: 401 `Invalid secret`.
    InvalidSecret,
}

/// The paths that need no secret.
pub open spec fn is_open_path(path: Seq<char>) -> bool {
    path == "/pair"@ || path == "/generate-qr"@
}

/// The request carries the paired secret as a bearer token.
pub open spec fn carries_secret(header: Seq<char>, secret: Seq<char>) -> bool {
    starts_with(header, "Bearer "@) && header.subrange(7, header.len() as int) == secret
}

/// How a request is let through: the pairing paths always; any other only
/// with the paired phone's secret as a bearer token.
pub fn authorize(path: &str, paired: Option<&PairedDevice>, authorization: &str) -> (r: AuthDecision)
    ensures
        is_open_path(path@) ==> r == AuthDecision::Pass,
        !is_open_path(path@) && paired is None ==> r == AuthDecision::NotPaired,
        !is_open_path(path@) ==> (paired matches Some(d) ==> (r == AuthDecision::Pass
            <==> carries_secret(authorization@, d.secret@))),
        !is_open_path(path@) && paired is Some ==> r != AuthDecision::NotPaired,
{
    proof {
        reveal_strlit("Bearer ");
    }
    if str_eq(path, "/pair") || str_eq(path, "/generate-qr") {
        return AuthDecision::Pass;
    }
    let d = match paired {
        Some(d) => d,
        None => return AuthDecision::NotPaired,
    };
    if str_starts_with(authorization, "Bearer ") {
        let v = crate::text::chars_of(authorization);
        let rest = crate::text::string_of(&v, 7, v.len());
        if str_eq(rest.as_str(), d.secret.as_str()) {
            return AuthDecision::Pass;
        }
    }
    AuthDecision::InvalidSecret
}

/// The message the agent sees for a photo triage.
pub open spec fn spec_triage_message(analysis: Seq<char>, caption: Option<Seq<char>>) -> Seq<char> {
    "[Mobile Photo Triage]\n\nThe user photographed an issue on their device and the mobile app analyzed it:\n\n## Mobile Analysis\n"@
        + analysis + "\n\n"@ + (match caption {
        Some(c) => "## User's Question\n"@ + c + "\n\n"@,
        None => Seq::empty(),
    })
        + "Please investigate this issue on the user's computer. Run diagnostic tools to confirm the problem and attempt to fix it if possible."@
}

/// The message the agent sees for a photo triage.
pub fn triage_message(request: &TriageRequest) -> (r: String)
    ensures
        r@ == spec_triage_message(
            request.analysis@,
            match request.caption {
                Some(c) => Some(c@),
                None => None,
            },
        ),
{
    let mut s = owned(
        "[Mobile Photo Triage]\n\nThe user photographed an issue on their device and the mobile app analyzed it:\n\n## Mobile Analysis\n",
    );
    push_str(&mut s, request.analysis.as_str());
    push_str(&mut s, "\n\n");
    match &request.caption {
        Some(c) => {
            push_str(&mut s, "## User's Question\n");
            push_str(&mut s, c.as_str());
            push_str(&mut s, "\n\n");
        },
        None => {},
    }
    push_str(
        &mut s,
        "Please investigate this issue on the user's computer. Run diagnostic tools to confirm the problem and attempt to fix it if possible.",
    );
    s
}

/// The title of a triage session.
pub fn triage_title(request: &TriageRequest) -> (r: String)
    ensures
        r@ == "Mobile Triage: "@ + (match request.caption {
            Some(c) => c@,
            None => "Photo Analysis"@,
        }),
{
    let mut s = owned("Mobile Triage: ");
    match &request.caption {
        Some(c) => push_str(&mut s, c.as_str()),
        None => push_str(&mut s, "Photo Analysis"),
    }
    s
}

/// The answer to a triage request: the new session, being processed.
pub fn triage_response(session_id: String) -> (r: TriageResponse)
    ensures
        r.session_id == session_id,
        r.status@ == "processing"@,
{
    TriageResponse { session_id, status: owned("processing") }
}

/// The answer to a successful pairing.
pub fn pair_response(device: &PairedDevice) -> (r: PairResponse)
    ensures
        r.device_id == device.device_id,
        r.secret == device.secret,
        r.desktop_name@ == DESKTOP_NAME@,
{
    PairResponse {
        device_id: device.device_id.clone(),
        secret: device.secret.clone(),
        desktop_name: owned(DESKTOP_NAME),
    }
}

/// The HTTP status of a pairing outcome.
pub fn pair_status(outcome: PairOutcome) -> (r: u16)
    ensures
        r == (match outcome {
            PairOutcome::Locked => 429u16,
            PairOutcome::Rejected => 401u16,
            PairOutcome::Paired => 200u16,
        }),
{
    match outcome {
        PairOutcome::Locked => 429,
        PairOutcome::Rejected => 401,
        PairOutcome::Paired => 200,
    }
}

/// The error text of a refused pairing.
pub fn pair_error(outcome: PairOutcome) -> (r: Option<&'static str>)
    ensures
        outcome == PairOutcome::Locked ==> (r matches Some(m) && m@
            == "Too many failed attempts. Regenerate QR code."@),
        outcome == PairOutcome::Rejected ==> (r matches Some(m) && m@ == "Invalid or expired token"@),
        outcome == PairOutcome::Paired ==> r is None,
{
    match outcome {
        PairOutcome::Locked => Some("Too many failed attempts. Regenerate QR code."),
        PairOutcome::Rejected => Some("Invalid or expired token"),
        PairOutcome::Paired => None,
    }
}

} // verus!
