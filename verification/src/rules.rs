//! Advisory file-access rules: one finding per protected target touched by a
//! non-allowlisted, non-browser process. In learning mode their severity is
//! capped at yellow and they never trigger containment.

use vstd::prelude::*;
use vstd::string::StringExecFns;
use crate::config::{strs_view, Config, Mode};
use crate::protected_paths::ProtectedTarget;
use crate::types::{Evidence, EvidenceM, FileAccessType, Finding, FindingM, Severity};

verus! {

#[derive(Debug)]
pub struct RuleMeta {
    pub id: String,
    pub title: String,
    pub default_severity: Severity,
}

/// The rule ids that ship with the agent.
pub fn active_rule_ids() -> (r: Vec<String>)
    ensures
        strs_view(r@) =~= seq!["R001"@, "R002"@, "R003"@, "R004"@, "R005"@],
{
    let mut v: Vec<String> = Vec::new();
    v.push(String::from_str("R001"));
    v.push(String::from_str("R002"));
    v.push(String::from_str("R003"));
    v.push(String::from_str("R004"));
    v.push(String::from_str("R005"));
    v
}

/// The rule id and description for a protected target, or `None` where no
/// advisory rule covers it.
pub open spec fn rule_for_target(t: ProtectedTarget) -> Option<(Seq<char>, Seq<char>)> {
    match t {
        ProtectedTarget::ChromeLoginData => Some(
            ("R001"@, "Non-browser process accessed Chromium Login Data (learning only)"@),
        ),
        ProtectedTarget::ChromeCookies => Some(
            ("R002"@, "Non-browser process accessed Chromium Cookies (learning only)"@),
        ),
        ProtectedTarget::ChromeLocalState => Some(
            ("R003"@, "Non-browser process accessed Chromium Local State (learning only)"@),
        ),
        ProtectedTarget::FirefoxLoginsJson => Some(
            ("R004"@, "Non-browser process accessed Firefox logins.json (learning only)"@),
        ),
        ProtectedTarget::FirefoxKey4Db => Some(
            ("R005"@, "Non-browser process accessed Firefox key4.db (learning only)"@),
        ),
        ProtectedTarget::FirefoxCookiesSqlite => None,
    }
}

/// In learning mode every advisory severity is capped at yellow.
pub open spec fn cap_for_learning_spec(mode: Mode, sev: Severity) -> Severity {
    if mode == Mode::Learning {
        Severity::Yellow
    } else {
        sev
    }
}

pub fn cap_for_learning(cfg: &Config, sev: Severity) -> (r: Severity)
    ensures
        r == cap_for_learning_spec(cfg.mode, sev),
{
    if cfg.mode == Mode::Learning {
        Severity::Yellow
    } else {
        sev
    }
}

/// The findings that one file access to a protected target produces.
pub open spec fn file_findings_spec(
    mode: Mode,
    pid: u32,
    image: Seq<char>,
    file: Seq<char>,
    access: FileAccessType,
    ts: u64,
    target: ProtectedTarget,
) -> Seq<FindingM> {
    match rule_for_target(target) {
        None => Seq::empty(),
        Some((id, desc)) => seq![
            FindingM {
                rule_id: id,
                severity: cap_for_learning_spec(mode, Severity::Yellow),
                description: desc,
                evidence: seq![
                    EvidenceM::File { pid, image_path: Some(image), file_path: file, access },
                ],
                timestamp_unix_ms: ts,
            },
        ],
    }
}

/// None of the advisory or auxiliary rule ids is the correlation rule `R009`.
pub proof fn lemma_rule_ids_not_r009()
    ensures
        "R001"@ != "R009"@,
        "R002"@ != "R009"@,
        "R003"@ != "R009"@,
        "R004"@ != "R009"@,
        "R005"@ != "R009"@,
        "R007"@ != "R009"@,
        "R008"@ != "R009"@,
        "R010"@ != "R009"@,
{
    reveal_strlit("R001");
    reveal_strlit("R002");
    reveal_strlit("R003");
    reveal_strlit("R004");
    reveal_strlit("R005");
    reveal_strlit("R007");
    reveal_strlit("R008");
    reveal_strlit("R009");
    reveal_strlit("R010");
    assert("R001"@[3] != "R009"@[3]);
    assert("R002"@[3] != "R009"@[3]);
    assert("R003"@[3] != "R009"@[3]);
    assert("R004"@[3] != "R009"@[3]);
    assert("R005"@[3] != "R009"@[3]);
    assert("R007"@[3] != "R009"@[3]);
    assert("R008"@[3] != "R009"@[3]);
    assert("R010"@[2] != "R009"@[2]);
}

fn one_finding(
    rule_id: String,
    description: String,
    severity: Severity,
    pid: u32,
    image_path: &str,
    file_path: &str,
    access: FileAccessType,
    ts: u64,
) -> (out: Vec<Finding>)
    ensures
        out@.map_values(|f: Finding| f@) =~= seq![
            FindingM {
                rule_id: rule_id@,
                severity,
                description: description@,
                evidence: seq![
                    EvidenceM::File {
                        pid,
                        image_path: Some(image_path@),
                        file_path: file_path@,
                        access,
                    },
                ],
                timestamp_unix_ms: ts,
            },
        ],
{
    let mut evidence: Vec<Evidence> = Vec::new();
    evidence.push(
        Evidence::File {
            pid,
            image_path: Some(String::from_str(image_path)),
            file_path: String::from_str(file_path),
            access,
        },
    );
    let finding = Finding { rule_id, severity, description, evidence, timestamp_unix_ms: ts };
    assert(finding.evidence@.map_values(|e: Evidence| e@) =~= seq![
        EvidenceM::File { pid, image_path: Some(image_path@), file_path: file_path@, access },
    ]);
    let mut out: Vec<Finding> = Vec::new();
    out.push(finding);
    out
}

/// The per-target advisory finding (rules `R001`..`R005`, default severity
/// yellow, capped in learning mode); empty when no rule covers the target.
pub fn file_access_rule_findings(
    cfg: &Config,
    pid: u32,
    image_path: &str,
    file_path: &str,
    access: FileAccessType,
    ts: u64,
    target: ProtectedTarget,
) -> (out: Vec<Finding>)
    ensures
        out@.map_values(|f: Finding| f@) =~= file_findings_spec(
            cfg.mode,
            pid,
            image_path@,
            file_path@,
            access,
            ts,
            target,
        ),
{
    let severity = cap_for_learning(cfg, Severity::Yellow);
    match target {
        ProtectedTarget::ChromeLoginData => one_finding(
            String::from_str("R001"),
            String::from_str("Non-browser process accessed Chromium Login Data (learning only)"),
            severity,
            pid,
            image_path,
            file_path,
            access,
            ts,
        ),
        ProtectedTarget::ChromeCookies => one_finding(
            String::from_str("R002"),
            String::from_str("Non-browser process accessed Chromium Cookies (learning only)"),
            severity,
            pid,
            image_path,
            file_path,
            access,
            ts,
        ),
        ProtectedTarget::ChromeLocalState => one_finding(
            String::from_str("R003"),
            String::from_str("Non-browser process accessed Chromium Local State (learning only)"),
            severity,
            pid,
            image_path,
            file_path,
            access,
            ts,
        ),
        ProtectedTarget::FirefoxLoginsJson => one_finding(
            String::from_str("R004"),
            String::from_str("Non-browser process accessed Firefox logins.json (learning only)"),
            severity,
            pid,
            image_path,
            file_path,
            access,
            ts,
        ),
        ProtectedTarget::FirefoxKey4Db => one_finding(
            String::from_str("R005"),
            String::from_str("Non-browser process accessed Firefox key4.db (learning only)"),
            severity,
            pid,
            image_path,
            file_path,
            access,
            ts,
        ),
        ProtectedTarget::FirefoxCookiesSqlite => Vec::new(),
    }
}

} // verus!
