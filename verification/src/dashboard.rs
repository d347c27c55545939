//! The fleet dashboard link: the enrollment URL, the configuration of a
//! linked device, the endpoints it talks to, and what each answer means.
use vstd::prelude::*;

use crate::json::Json;
use crate::llm::{status_display, without_trailing_slashes, strip_trailing_slashes};
use crate::shell::TargetOs;
use crate::text::{
    chars_of, find, find_exec, nat_decimal, owned, push_str, slice_vec, string_of, trim,
    trim_bounds, u64_decimal,
};

verus! {

/// The file of the app directory that holds the link.
pub const CONFIG_FILE: &'static str = "dashboard.json";

/// The fleet name used when the dashboard gives none.
pub fn default_fleet_name() -> (r: String)
    ensures
        r@ == "My Fleet"@,
{
    owned("My Fleet")
}

/// The configuration of a device linked to a fleet dashboard.
#[derive(Debug, Clone)]
pub struct DashboardConfig {
    pub dashboard_url: String,
    pub device_token: String,
    pub device_id: String,
    pub fleet_name: String,
    pub linked_at: String,
    pub enabled_categories: Option<Vec<String>>,
}

/// A playbook assigned to this device via the fleet (group or direct assignment).
#[derive(Debug, Clone)]
pub struct AssignedPlaybook {
    pub slug: String,
    pub name: String,
    pub content: String,
}

/// A remediation action requested by the fleet.
#[derive(Debug, Clone)]
pub struct FleetAction {
    pub id: String,
    pub check_id: String,
    pub check_label: String,
    pub action_hint: String,
    pub created_at: String,
    pub action_type: String,
    pub playbook_slug: Option<String>,
    pub playbook_content: Option<String>,
    pub issue_id: Option<String>,
}

/// The action type used when the fleet gives none.
pub fn default_action_type() -> (r: String)
    ensures
        r@ == "hint"@,
{
    owned("hint")
}

/// Why an enrollment URL was refused.
#[derive(Debug, Clone, PartialEq, Eq)]
pub enum EnrollmentUrlError {
    /// The URL has no `/enroll/` part, or nothing before or after it.
    Invalid,
}

impl EnrollmentUrlError {
    /// The message shown for the error.
    pub fn message(&self) -> (r: String)
        ensures
            r@ == "Invalid enrollment URL — expected format: https://your-dashboard/enroll/TOKEN"@,
    {
        owned("Invalid enrollment URL — expected format: https://your-dashboard/enroll/TOKEN")
    }
}

/// The input trimmed and without trailing slashes.
pub open spec fn enrollment_text(input: Seq<char>) -> Seq<char> {
    without_trailing_slashes(trim(input))
}

/// What an enrollment URL holds: the base URL before the first `/enroll/`
/// and the token after it, both non-empty.
pub open spec fn spec_enrollment(input: Seq<char>) -> Option<(Seq<char>, Seq<char>)> {
    let t = enrollment_text(input);
    match find(t, "/enroll/"@) {
        Some(pos) => {
            let base = t.subrange(0, pos);
            let token = t.subrange(pos + 8, t.len() as int);
            if base.len() == 0 || token.len() == 0 {
                None
            } else {
                Some((base, token))
            }
        },
        None => None,
    }
}

/// Parse an enrollment URL such as `https://dashboard.example.com/enroll/abc123`
/// (a trailing slash is allowed) into its base URL and token.
pub fn parse_enrollment_url(input: &str) -> (r: Result<(String, String), EnrollmentUrlError>)
    ensures
        r is Ok <==> spec_enrollment(input@) is Some,
        r matches Ok((base, token)) ==> spec_enrollment(input@) == Some((base@, token@)),
{
    proof {
        reveal_strlit("/enroll/");
    }
    let v = chars_of(input);
    let (lo, hi) = trim_bounds(&v, 0, v.len());
    assert(v@.subrange(0, v@.len() as int) =~= v@);
    let mut n = hi;
    assert(v@.subrange(lo as int, hi as int) == trim(input@));
    while n > lo && v[n - 1] == '/'
        invariant
            lo <= n <= hi <= v@.len(),
            v@.subrange(lo as int, hi as int) == trim(input@),
            enrollment_text(input@) == without_trailing_slashes(v@.subrange(lo as int, n as int)),
        decreases n,
    {
        assert(v@.subrange(lo as int, n as int).drop_last() =~= v@.subrange(lo as int, n - 1));
        n -= 1;
    }
    let t = slice_vec(&v, lo, n);
    assert(without_trailing_slashes(t@) == t@);
    let needle = chars_of("/enroll/");
    match find_exec(&t, &needle) {
        Some(pos) => {
            if pos == 0 || pos + 8 >= t.len() {
                return Err(EnrollmentUrlError::Invalid);
            }
            let base = string_of(&t, 0, pos);
            let token = string_of(&t, pos + 8, t.len());
            Ok((base, token))
        },
        None => Err(EnrollmentUrlError::Invalid),
    }
}

/// `base` without trailing slashes, then `path`.
pub open spec fn endpoint(base: Seq<char>, path: Seq<char>) -> Seq<char> {
    without_trailing_slashes(base) + path
}

fn endpoint_exec(base: &str, path: &str) -> (r: String)
    ensures
        r@ == endpoint(base@, path@),
{
    let mut s = strip_trailing_slashes(base);
    push_str(&mut s, path);
    s
}

/// The enrollment endpoint of a dashboard.
pub fn enroll_url(base_url: &str) -> (r: String)
    ensures
        r@ == endpoint(base_url@, "/devices/enroll"@),
{
    endpoint_exec(base_url, "/devices/enroll")
}

/// The name under which a device reports its operating system.
pub fn device_os_name(os: TargetOs) -> (r: &'static str)
    ensures
        r@ == (match os {
            TargetOs::MacOs => "macOS"@,
            TargetOs::Windows => "Windows"@,
            _ => "Linux"@,
        }),
{
    match os {
        TargetOs::MacOs => "macOS",
        TargetOs::Windows => "Windows",
        _ => "Linux",
    }
}

/// The error of a refused enrollment.
pub fn enrollment_failed_message(status: u16, body: &str) -> (r: String)
    requires
        100 <= status <= 999,
    ensures
        r@ == "Enrollment failed ("@ + status_display(status) + "): "@ + body@,
{
    let mut s = owned("Enrollment failed (");
    let code = u64_decimal(status as u64);
    push_str(&mut s, code.as_str());
    push_str(&mut s, " ");
    let reason = crate::llm::status_reason_text(status);
    push_str(&mut s, reason.as_str());
    push_str(&mut s, "): ");
    push_str(&mut s, body);
    s
}

impl DashboardConfig {
    /// The `Authorization` header value of the device.
    pub fn bearer(&self) -> (r: String)
        ensures
            r@ == "Bearer "@ + self.device_token@,
    {
        let mut s = owned("Bearer ");
        push_str(&mut s, self.device_token.as_str());
        s
    }

    /// The health check-in endpoint.
    pub fn checkin_url(&self) -> (r: String)
        ensures
            r@ == endpoint(self.dashboard_url@, "/dashboard/checkin"@),
    {
        endpoint_exec(self.dashboard_url.as_str(), "/dashboard/checkin")
    }

    /// The endpoint that lists pending actions.
    pub fn pending_actions_url(&self) -> (r: String)
        ensures
            r@ == endpoint(self.dashboard_url@, "/dashboard/actions/pending"@),
    {
        endpoint_exec(self.dashboard_url.as_str(), "/dashboard/actions/pending")
    }

    /// The endpoint that receives an action's status.
    pub fn action_status_url(&self, action_id: &str) -> (r: String)
        ensures
            r@ == endpoint(self.dashboard_url@, "/dashboard/actions/"@) + action_id@ + "/status"@,
    {
        let mut s = endpoint_exec(self.dashboard_url.as_str(), "/dashboard/actions/");
        push_str(&mut s, action_id);
        push_str(&mut s, "/status");
        s
    }

    /// The endpoint that receives an action's verification.
    pub fn verify_url(&self, action_id: &str) -> (r: String)
        ensures
            r@ == endpoint(self.dashboard_url@, "/dashboard/actions/"@) + action_id@ + "/verify"@,
    {
        let mut s = endpoint_exec(self.dashboard_url.as_str(), "/dashboard/actions/");
        push_str(&mut s, action_id);
        push_str(&mut s, "/verify");
        s
    }

    /// The endpoint that receives auto-heal events.
    pub fn auto_heal_url(&self) -> (r: String)
        ensures
            r@ == endpoint(self.dashboard_url@, "/dashboard/auto-heal"@),
    {
        endpoint_exec(self.dashboard_url.as_str(), "/dashboard/auto-heal")
    }

    /// The endpoint that receives session reports.
    pub fn session_report_url(&self) -> (r: String)
        ensures
            r@ == endpoint(self.dashboard_url@, "/dashboard/session-report"@),
    {
        endpoint_exec(self.dashboard_url.as_str(), "/dashboard/session-report")
    }

    /// Whether a fleet name from the server differs from the stored one and
    /// must be saved (an admin renamed the fleet).
    pub fn fleet_name_changed(&self, name: &str) -> (b: bool)
        ensures
            b == (self.fleet_name@ != name@),
    {
        !crate::text::str_eq(self.fleet_name.as_str(), name)
    }
}

/// What a check-in answer (by status) leads to.
#[derive(Debug, Clone, PartialEq, Eq)]
pub enum CheckinOutcome {
    /// The device token was revoked: unlink the device and fail with this message.
    Revoked(String),
    /// The check-in failed with this message.
    Failed(String),
    /// The check-in was accepted; read its body.
    Accepted,
}

/// What a check-in answer leads to: 401 revokes the link, other failures fail.
pub fn checkin_outcome(status: u16, body: &str) -> (r: CheckinOutcome)
    ensures
        status == 401 ==> r == CheckinOutcome::Revoked(r->Revoked_0) && r->Revoked_0@
            == "Device removed from fleet"@,
        status != 401 && !(200 <= status < 300) ==> r == CheckinOutcome::Failed(r->Failed_0)
            && r->Failed_0@ == "Checkin failed: "@ + body@,
        status != 401 && 200 <= status < 300 ==> r == CheckinOutcome::Accepted,
{
    if status == 401 {
        CheckinOutcome::Revoked(owned("Device removed from fleet"))
    } else if !(200 <= status && status < 300) {
        let mut s = owned("Checkin failed: ");
        push_str(&mut s, body);
        CheckinOutcome::Failed(s)
    } else {
        CheckinOutcome::Accepted
    }
}

/// What an action poll answer (by status) leads to.
#[derive(Debug, Clone, Copy, PartialEq, Eq)]
pub enum PollOutcome {
    /// The device token was revoked: unlink the device; there are no actions.
    Revoked,
    /// The poll failed; there are no actions.
    NoActions,
    /// Read the actions from the body.
    Accepted,
}

/// What an action poll answer leads to.
pub fn poll_outcome(status: u16) -> (r: PollOutcome)
    ensures
        r == (if status == 401 {
            PollOutcome::Revoked
        } else if !(200 <= status < 300) {
            PollOutcome::NoActions
        } else {
            PollOutcome::Accepted
        }),
{
    if status == 401 {
        PollOutcome::Revoked
    } else if !(200 <= status && status < 300) {
        PollOutcome::NoActions
    } else {
        PollOutcome::Accepted
    }
}

/// The error of a failed dashboard request: what it was, then the body.
pub fn request_failed_message(what: &str, body: &str) -> (r: String)
    ensures
        r@ == what@ + " failed: "@ + body@,
{
    let mut s = owned(what);
    push_str(&mut s, " failed: ");
    push_str(&mut s, body);
    s
}

} // verus!
