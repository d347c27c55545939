//! Health checks: which categories are scanned under the fleet's policy,
//! how a scan result reads, what a score reports to the fleet, and where
//! the system settings for a failing check live.
use vstd::prelude::*;

use crate::json::{json_text, json_to_string, spec_get, str_field, Json, JsonNumber};
use crate::shell::TargetOs;
use crate::text::{contains, nat_decimal, owned, push_str, str_contains, str_eq, u64_decimal};

verus! {

/// A category of health checks.
#[derive(Debug, Clone, Copy, PartialEq, Eq, Structural)]
pub enum HealthCategory {
    Security,
    Updates,
    Performance,
    Backups,
    Network,
}

/// How a check came out.
#[derive(Debug, Clone, Copy, PartialEq, Eq, Structural)]
pub enum CheckStatus {
    Pass,
    Warn,
    Fail,
}

/// The category a stored name stands for.
pub open spec fn category_of(name: Seq<char>) -> Option<HealthCategory> {
    if name == "security"@ {
        Some(HealthCategory::Security)
    } else if name == "updates"@ {
        Some(HealthCategory::Updates)
    } else if name == "performance"@ {
        Some(HealthCategory::Performance)
    } else if name == "backups"@ {
        Some(HealthCategory::Backups)
    } else if name == "network"@ {
        Some(HealthCategory::Network)
    } else {
        None
    }
}

/// The category a stored name stands for.
pub fn parse_category(name: &str) -> (r: Option<HealthCategory>)
    ensures
        r == category_of(name@),
{
    if str_eq(name, "security") {
        Some(HealthCategory::Security)
    } else if str_eq(name, "updates") {
        Some(HealthCategory::Updates)
    } else if str_eq(name, "performance") {
        Some(HealthCategory::Performance)
    } else if str_eq(name, "backups") {
        Some(HealthCategory::Backups)
    } else if str_eq(name, "network") {
        Some(HealthCategory::Network)
    } else {
        None
    }
}

/// The known categories among the names, in order.
pub open spec fn known_categories(names: Seq<String>) -> Seq<HealthCategory>
    decreases names.len(),
{
    if names.len() == 0 {
        Seq::empty()
    } else {
        let rest = known_categories(names.drop_last());
        match category_of(names.last()@) {
            Some(c) => rest.push(c),
            None => rest,
        }
    }
}

/// The categories the fleet policy enables: the known ones among the names;
/// no filter (`None`) when there is no policy or it names none.
pub fn enabled_categories(names: Option<&Vec<String>>) -> (r: Option<Vec<HealthCategory>>)
    ensures
        names is None ==> r is None,
        names matches Some(ns) ==> (known_categories(ns@).len() == 0 ==> r is None),
        names matches Some(ns) ==> (known_categories(ns@).len() > 0 ==> (r matches Some(cs)
            && cs@ == known_categories(ns@))),
{
    let ns = match names {
        Some(ns) => ns,
        None => return None,
    };
    let mut out: Vec<HealthCategory> = Vec::new();
    let mut i: usize = 0;
    while i < ns.len()
        invariant
            i <= ns@.len(),
            out@ == known_categories(ns@.subrange(0, i as int)),
        decreases ns@.len() - i,
    {
        let ghost pre = ns@.subrange(0, i + 1);
        assert(pre.drop_last() =~= ns@.subrange(0, i as int));
        match parse_category(ns[i].as_str()) {
            Some(c) => out.push(c),
            None => {},
        }
        i += 1;
    }
    assert(ns@.subrange(0, ns@.len() as int) =~= ns@);
    if out.len() == 0 {
        None
    } else {
        Some(out)
    }
}

/// Whether a category is scanned: always without a filter, else when the filter lists it.
pub fn should_scan(enabled: &Option<Vec<HealthCategory>>, cat: HealthCategory) -> (b: bool)
    ensures
        b == (match enabled {
            None => true,
            Some(cs) => cs@.contains(cat),
        }),
{
    match enabled {
        None => true,
        Some(cs) => {
            let mut i: usize = 0;
            while i < cs.len()
                invariant
                    i <= cs@.len(),
                    *enabled == Some(*cs),
                    forall|k: int| 0 <= k < i ==> cs@[k] != cat,
                decreases cs@.len() - i,
            {
                if cs[i] == cat {
                    assert(cs@[i as int] == cat);
                    assert(cs@.contains(cat));
                    return true;
                }
                i += 1;
            }
            proof {
                if cs@.contains(cat) {
                    let k = choose|k: int| 0 <= k < cs@.len() && cs@[k] == cat;
                    assert(cs@[k] != cat);
                }
            }
            false
        },
    }
}

/// How a stored scan result reads: `pass`, `warn`, and anything else a failure.
pub fn check_status(value_text: Option<&str>) -> (r: CheckStatus)
    ensures
        r == (match value_text {
            Some(v) => if v@ == "pass"@ {
                CheckStatus::Pass
            } else if v@ == "warn"@ {
                CheckStatus::Warn
            } else {
                CheckStatus::Fail
            },
            None => CheckStatus::Fail,
        }),
{
    match value_text {
        Some(v) => if str_eq(v, "pass") {
            CheckStatus::Pass
        } else if str_eq(v, "warn") {
            CheckStatus::Warn
        } else {
            CheckStatus::Fail
        },
        None => CheckStatus::Fail,
    }
}

/// A JSON number read as an `i64` (`Value::as_i64`).
pub open spec fn spec_as_i64(v: Json) -> Option<i64> {
    match v {
        Json::Number(JsonNumber::PosInt(n)) => if n <= i64::MAX as u64 {
            Some(n as i64)
        } else {
            None
        },
        Json::Number(JsonNumber::NegInt(n)) => Some(n),
        _ => None,
    }
}

/// What a health score reports to the fleet: the overall score (0 when
/// absent, truncated to `i32`), the grade (`F` when absent), and the JSON
/// text of the categories (`[]` when absent).
pub open spec fn checkin_fields_are(score: Json, r: (i32, Seq<char>, Seq<char>)) -> bool {
    &&& r.0 == (match spec_get(score, "overall_score"@) {
        Some(v) => match spec_as_i64(v) {
            Some(n) => n as i32,
            None => 0,
        },
        None => 0,
    })
    &&& r.1 == (match str_field(score, "overall_grade"@) {
        Some(g) => g,
        None => "F"@,
    })
    &&& r.2 == (match spec_get(score, "categories"@) {
        Some(c) => json_text(c),
        None => "[]"@,
    })
}

/// The fields of a health score that a fleet check-in carries.
pub fn checkin_fields(score: &Json) -> (r: (i32, String, String))
    ensures
        checkin_fields_are(*score, (r.0, r.1@, r.2@)),
{
    let s: i32 = match score.get("overall_score") {
        Some(v) => match v {
            Json::Number(JsonNumber::PosInt(n)) => if *n <= i64::MAX as u64 {
                (*n as i64) as i32
            } else {
                0
            },
            Json::Number(JsonNumber::NegInt(n)) => *n as i32,
            _ => 0,
        },
        None => 0,
    };
    let g = match score.str_field("overall_grade") {
        Some(g) => owned(g),
        None => owned("F"),
    };
    let c = match score.get("categories") {
        Some(v) => json_to_string(v),
        None => owned("[]"),
    };
    (s, g, c)
}

/// Whether a failed check-in means the device was removed from the fleet.
pub fn removed_from_fleet(error: &str) -> (b: bool)
    ensures
        b == contains(error@, "Device removed from fleet"@),
{
    str_contains(error, "Device removed from fleet")
}

/// Where the settings for a failing check are opened.
#[derive(Debug, Clone, PartialEq, Eq)]
pub enum FixTarget {
    /// A settings deep link.
    Link(&'static str),
    /// A program with its arguments.
    Program(&'static str, Vec<&'static str>),
}

/// The settings deep link for a check on macOS.
pub open spec fn mac_fix_link(id: Seq<char>) -> Option<Seq<char>> {
    if id == "security.firewall"@ {
        Some("x-apple.systempreferences:com.apple.Network-Settings.extension?Firewall"@)
    } else if id == "security.filevault"@ {
        Some("x-apple.systempreferences:com.apple.preference.security?FDE"@)
    } else if id == "security.screen_lock"@ {
        Some("x-apple.systempreferences:com.apple.Lock-Screen-Settings.extension"@)
    } else if id == "security.gatekeeper"@ {
        Some("x-apple.systempreferences:com.apple.preference.security?General"@)
    } else if id == "security.xprotect"@ || id == "updates.os"@ {
        Some("x-apple.systempreferences:com.apple.Software-Update-Settings.extension"@)
    } else if id == "backups.timemachine"@ || id == "backups.timemachine_dest"@ {
        Some("x-apple.systempreferences:com.apple.Time-Machine-Settings.extension"@)
    } else {
        None
    }
}

/// The settings deep link for a check on Windows.
pub open spec fn windows_fix_link(id: Seq<char>) -> Option<Seq<char>> {
    if id == "security.defender"@ || id == "security.firewall"@ {
        Some("ms-settings:windowsdefender"@)
    } else if id == "security.screen_lock"@ {
        Some("ms-settings:lockscreen"@)
    } else if id == "updates.os"@ {
        Some("ms-settings:windowsupdate"@)
    } else if id == "backups.filehistory"@ {
        Some("ms-settings:backup"@)
    } else if id == "backups.restore_points"@ {
        Some("ms-settings:recovery"@)
    } else {
        None
    }
}

/// Where to open the settings for a failing check on `os`: a deep link, a
/// program (BitLocker and UAC on Windows), or why there is none.
pub fn health_fix_target(check_id: &str, os: TargetOs) -> (r: Result<FixTarget, String>)
    ensures
        os == TargetOs::MacOs && check_id@ == "security.sip"@ ==> (r matches Err(e) && e@
            == "SIP must be changed from Recovery Mode (csrutil enable)"@),
        os == TargetOs::MacOs && check_id@ != "security.sip"@ ==> (match mac_fix_link(check_id@) {
            Some(l) => r matches Ok(FixTarget::Link(t)) && t@ == l,
            None => r matches Err(e) && e@ == "No settings pane for check: "@ + check_id@,
        }),
        os == TargetOs::Windows && check_id@ == "security.bitlocker"@ ==> (r matches Ok(
            FixTarget::Program(p, args),
        ) && p@ == "control"@ && args@.len() == 2 && args@[0]@ == "/name"@ && args@[1]@
            == "Microsoft.BitLockerDriveEncryption"@),
        os == TargetOs::Windows && check_id@ == "security.uac"@ ==> (r matches Ok(
            FixTarget::Program(p, args),
        ) && p@ == "UserAccountControlSettings.exe"@ && args@.len() == 0),
        os == TargetOs::Windows && check_id@ != "security.bitlocker"@ && check_id@
            != "security.uac"@ ==> (match windows_fix_link(check_id@) {
            Some(l) => r matches Ok(FixTarget::Link(t)) && t@ == l,
            None => r matches Err(e) && e@ == "No settings pane for check: "@ + check_id@,
        }),
        os != TargetOs::MacOs && os != TargetOs::Windows ==> (r matches Err(e) && e@
            == "No settings pane for check: "@ + check_id@),
{
    proof {
        reveal_strlit("security.bitlocker");
        reveal_strlit("security.uac");
        assert("security.bitlocker"@.len() != "security.uac"@.len());
    }
    let c = check_id;
    let link: Option<&'static str> = match os {
        TargetOs::MacOs => {
            if str_eq(c, "security.sip") {
                return Err(owned("SIP must be changed from Recovery Mode (csrutil enable)"));
            }
            if str_eq(c, "security.firewall") {
                Some("x-apple.systempreferences:com.apple.Network-Settings.extension?Firewall")
            } else if str_eq(c, "security.filevault") {
                Some("x-apple.systempreferences:com.apple.preference.security?FDE")
            } else if str_eq(c, "security.screen_lock") {
                Some("x-apple.systempreferences:com.apple.Lock-Screen-Settings.extension")
            } else if str_eq(c, "security.gatekeeper") {
                Some("x-apple.systempreferences:com.apple.preference.security?General")
            } else if str_eq(c, "security.xprotect") || str_eq(c, "updates.os") {
                Some("x-apple.systempreferences:com.apple.Software-Update-Settings.extension")
            } else if str_eq(c, "backups.timemachine") || str_eq(c, "backups.timemachine_dest") {
                Some("x-apple.systempreferences:com.apple.Time-Machine-Settings.extension")
            } else {
                None
            }
        },
        TargetOs::Windows => {
            if str_eq(c, "security.bitlocker") {
                return Ok(FixTarget::Program("control", vec!["/name", "Microsoft.BitLockerDriveEncryption"]));
            }
            if str_eq(c, "security.uac") {
                return Ok(FixTarget::Program("UserAccountControlSettings.exe", Vec::new()));
            }
            if str_eq(c, "security.defender") || str_eq(c, "security.firewall") {
                Some("ms-settings:windowsdefender")
            } else if str_eq(c, "security.screen_lock") {
                Some("ms-settings:lockscreen")
            } else if str_eq(c, "updates.os") {
                Some("ms-settings:windowsupdate")
            } else if str_eq(c, "backups.filehistory") {
                Some("ms-settings:backup")
            } else if str_eq(c, "backups.restore_points") {
                Some("ms-settings:recovery")
            } else {
                None
            }
        },
        _ => None,
    };
    match link {
        Some(l) => Ok(FixTarget::Link(l)),
        None => {
            let mut e = owned("No settings pane for check: ");
            push_str(&mut e, check_id);
            Err(e)
        },
    }
}

// ── Health report ──────────────────────────────────────────────────────

/// One check of a scored category, as the report lists it.
#[derive(Debug, Clone)]
pub struct CheckLine {
    pub status: CheckStatus,
    pub label: String,
    pub detail: String,
}

/// A scored category, as the report lists it.
#[derive(Debug, Clone)]
pub struct CategoryReport {
    pub label: String,
    pub score: u32,
    pub grade: String,
    pub checks: Vec<CheckLine>,
}

/// The mark of a check's outcome.
pub open spec fn status_icon(s: CheckStatus) -> Seq<char> {
    match s {
        CheckStatus::Pass => "\u{2713}"@,
        CheckStatus::Warn => "\u{26a0}"@,
        CheckStatus::Fail => "\u{2717}"@,
    }
}

/// The report's lines for the checks of a category.
pub open spec fn checks_text(cs: Seq<CheckLine>) -> Seq<char>
    decreases cs.len(),
{
    if cs.len() == 0 {
        Seq::empty()
    } else {
        checks_text(cs.drop_last()) + "  "@ + status_icon(cs.last().status) + " "@
            + cs.last().label@ + " \u{2014} "@ + cs.last().detail@ + "\n"@
    }
}

/// The report's section for a category: its label, score and grade, then its checks.
pub open spec fn category_text(c: CategoryReport) -> Seq<char> {
    "\n\u{25b8} "@ + c.label@ + " \u{2014} "@ + nat_decimal(c.score as nat) + " ("@ + c.grade@
        + ")\n"@ + checks_text(c.checks@)
}

/// The report's sections for the categories, in order.
pub open spec fn categories_text(cs: Seq<CategoryReport>) -> Seq<char>
    decreases cs.len(),
{
    if cs.len() == 0 {
        Seq::empty()
    } else {
        categories_text(cs.drop_last()) + category_text(cs.last())
    }
}

/// A horizontal rule of 44 box-drawing characters.
pub open spec fn report_rule() -> Seq<char> {
    Seq::new(44, |i: int| '\u{2500}')
}

/// The report's banner: a double-lined box around its title.
pub const REPORT_BANNER: &'static str = "\u{2554}\u{2550}\u{2550}\u{2550}\u{2550}\u{2550}\u{2550}\u{2550}\u{2550}\u{2550}\u{2550}\u{2550}\u{2550}\u{2550}\u{2550}\u{2550}\u{2550}\u{2550}\u{2550}\u{2550}\u{2550}\u{2550}\u{2550}\u{2550}\u{2550}\u{2550}\u{2550}\u{2550}\u{2550}\u{2550}\u{2550}\u{2550}\u{2550}\u{2550}\u{2550}\u{2550}\u{2550}\u{2550}\u{2550}\u{2550}\u{2550}\u{2550}\u{2550}\u{2557}\n\u{2551}         NOAH HEALTH REPORT               \u{2551}\n\u{255a}\u{2550}\u{2550}\u{2550}\u{2550}\u{2550}\u{2550}\u{2550}\u{2550}\u{2550}\u{2550}\u{2550}\u{2550}\u{2550}\u{2550}\u{2550}\u{2550}\u{2550}\u{2550}\u{2550}\u{2550}\u{2550}\u{2550}\u{2550}\u{2550}\u{2550}\u{2550}\u{2550}\u{2550}\u{2550}\u{2550}\u{2550}\u{2550}\u{2550}\u{2550}\u{2550}\u{2550}\u{2550}\u{2550}\u{2550}\u{2550}\u{2550}\u{2550}\u{255d}\n\n";

/// The health report exported for a device: the banner, the device, its
/// operating system and the time of the report, the overall score and
/// grade, each category with its checks, and the closing lines.
pub open spec fn spec_health_report(
    device: Seq<char>,
    os_name: Seq<char>,
    generated: Seq<char>,
    overall_score: u32,
    overall_grade: Seq<char>,
    categories: Seq<CategoryReport>,
) -> Seq<char> {
    REPORT_BANNER@ + "Device:     "@ + device + "\n"@ + "OS:         "@ + os_name + "\n"@
        + "Generated:  "@ + generated + "\n"@ + "\nOverall Score: "@ + nat_decimal(
        overall_score as nat,
    ) + " ("@ + overall_grade + ")\n"@ + report_rule() + "\n"@ + categories_text(categories)
        + "\n"@ + report_rule() + "\n"@ + "Generated by Noah (https://onnoah.app)\n"@
        + "Health data collected locally on this device.\n"@
}

/// The name of the operating system in the report.
pub fn report_os_name(os: TargetOs) -> (r: &'static str)
    ensures
        r@ == (match os {
            TargetOs::MacOs => "macOS"@,
            TargetOs::Windows => "Windows"@,
            _ => "Linux"@,
        }),
{
    match os {
        TargetOs::MacOs => "macOS",
        TargetOs::Windows => "Windows",
        _ => "Linux",
    }
}

fn push_rule(s: &mut String)
    ensures
        final(s)@ == old(s)@ + report_rule(),
{
    let ghost start = s@;
    let mut i: usize = 0;
    while i < 44
        invariant
            i <= 44,
            s@ == start + Seq::new(i as nat, |k: int| '\u{2500}'),
        decreases 44 - i,
    {
        s.push('\u{2500}');
        assert(s@ =~= start + Seq::new((i + 1) as nat, |k: int| '\u{2500}'));
        i += 1;
    }
    assert(Seq::new(44, |k: int| '\u{2500}') =~= report_rule());
}

fn push_icon(s: &mut String, status: CheckStatus)
    ensures
        final(s)@ == old(s)@ + status_icon(status),
{
    match status {
        CheckStatus::Pass => push_str(s, "\u{2713}"),
        CheckStatus::Warn => push_str(s, "\u{26a0}"),
        CheckStatus::Fail => push_str(s, "\u{2717}"),
    }
}

fn push_category(s: &mut String, c: &CategoryReport)
    ensures
        final(s)@ == old(s)@ + category_text(*c),
{
    push_str(s, "\n\u{25b8} ");
    push_str(s, c.label.as_str());
    push_str(s, " \u{2014} ");
    let score = u64_decimal(c.score as u64);
    push_str(s, score.as_str());
    push_str(s, " (");
    push_str(s, c.grade.as_str());
    push_str(s, ")\n");
    let ghost head = s@;
    let mut i: usize = 0;
    while i < c.checks.len()
        invariant
            i <= c.checks@.len(),
            s@ == head + checks_text(c.checks@.take(i as int)),
        decreases c.checks@.len() - i,
    {
        assert(c.checks@.take(i + 1).drop_last() =~= c.checks@.take(i as int));
        let check = &c.checks[i];
        push_str(s, "  ");
        push_icon(s, check.status);
        push_str(s, " ");
        push_str(s, check.label.as_str());
        push_str(s, " \u{2014} ");
        push_str(s, check.detail.as_str());
        push_str(s, "\n");
        i += 1;
    }
    assert(c.checks@.take(c.checks@.len() as int) =~= c.checks@);
}

/// The health report for a device (see `spec_health_report`), from its
/// scored categories.
pub fn health_report(
    device: &str,
    os_name: &str,
    generated: &str,
    overall_score: u32,
    overall_grade: &str,
    categories: &Vec<CategoryReport>,
) -> (r: String)
    ensures
        r@ == spec_health_report(
            device@,
            os_name@,
            generated@,
            overall_score,
            overall_grade@,
            categories@,
        ),
{
    let mut s = owned(REPORT_BANNER);
    push_str(&mut s, "Device:     ");
    push_str(&mut s, device);
    push_str(&mut s, "\n");
    push_str(&mut s, "OS:         ");
    push_str(&mut s, os_name);
    push_str(&mut s, "\n");
    push_str(&mut s, "Generated:  ");
    push_str(&mut s, generated);
    push_str(&mut s, "\n");
    push_str(&mut s, "\nOverall Score: ");
    let score = u64_decimal(overall_score as u64);
    push_str(&mut s, score.as_str());
    push_str(&mut s, " (");
    push_str(&mut s, overall_grade);
    push_str(&mut s, ")\n");
    push_rule(&mut s);
    push_str(&mut s, "\n");
    let ghost head = s@;
    let mut i: usize = 0;
    while i < categories.len()
        invariant
            i <= categories@.len(),
            s@ == head + categories_text(categories@.take(i as int)),
        decreases categories@.len() - i,
    {
        assert(categories@.take(i + 1).drop_last() =~= categories@.take(i as int));
        push_category(&mut s, &categories[i]);
        i += 1;
    }
    assert(categories@.take(categories@.len() as int) =~= categories@);
    push_str(&mut s, "\n");
    push_rule(&mut s);
    push_str(&mut s, "\n");
    push_str(&mut s, "Generated by Noah (https://onnoah.app)\n");
    push_str(&mut s, "Health data collected locally on this device.\n");
    s
}

} // verus!
