//! Event, finding and incident data model.
//!
//! Each executable type has a view (`@`) whose string fields are `Seq<char>`;
//! the detection pipeline's contracts are stated over those views.

use vstd::prelude::*;
use vstd::string::StrSliceExecFns;
use vstd::string::StringExecFns;
use crate::text::trim_spec;

verus! {

#[derive(Debug, Clone, Copy, PartialEq, Eq, Structural)]
pub enum Severity {
    Green,
    Yellow,
    Red,
}

#[derive(Debug, Clone, Copy, PartialEq, Eq, Structural)]
pub enum FileAccessType {
    Read,
    Write,
    Delete,
}

#[derive(Debug, Clone)]
pub enum Event {
    ProcessStart {
        pid: u32,
        ppid: u32,
        image_path: String,
        signer_publisher: Option<String>,
        timestamp_unix_ms: u64,
    },
    FileAccess {
        pid: u32,
        image_path: Option<String>,
        file_path: String,
        access: FileAccessType,
        timestamp_unix_ms: u64,
    },
    NetConnect {
        pid: u32,
        image_path: Option<String>,
        dest_ip: String,
        dest_port: u16,
        dest_host: Option<String>,
        protocol: String,
        timestamp_unix_ms: u64,
    },
}

#[derive(Debug, Clone)]
pub enum Evidence {
    Process { pid: u32, ppid: u32, image_path: String, signer_publisher: Option<String> },
    File { pid: u32, image_path: Option<String>, file_path: String, access: FileAccessType },
    Network {
        pid: u32,
        image_path: Option<String>,
        dest_ip: String,
        dest_port: u16,
        dest_host: Option<String>,
        protocol: String,
    },
    Correlation {
        pid: u32,
        window_seconds: u64,
        sensitive_file: String,
        dest_ip: String,
        dest_host: Option<String>,
        delta_seconds: u64,
    },
    Note { message: String },
}

#[derive(Debug, Clone)]
pub struct Finding {
    pub rule_id: String,
    pub severity: Severity,
    pub description: String,
    pub evidence: Vec<Evidence>,
    pub timestamp_unix_ms: u64,
}

#[derive(Debug, Clone)]
pub struct Incident {
    pub incident_id: String,
    pub severity: Severity,
    pub findings: Vec<Finding>,
    pub actions_taken: Vec<String>,
    pub created_at_unix_ms: u64,
}

pub open spec fn view_opt_str(o: Option<String>) -> Option<Seq<char>> {
    match o {
        Some(s) => Some(s@),
        None => None,
    }
}

#[verifier::ext_equal]
pub enum EventM {
    ProcessStart {
        pid: u32,
        ppid: u32,
        image_path: Seq<char>,
        signer_publisher: Option<Seq<char>>,
        timestamp_unix_ms: u64,
    },
    FileAccess {
        pid: u32,
        image_path: Option<Seq<char>>,
        file_path: Seq<char>,
        access: FileAccessType,
        timestamp_unix_ms: u64,
    },
    NetConnect {
        pid: u32,
        image_path: Option<Seq<char>>,
        dest_ip: Seq<char>,
        dest_port: u16,
        dest_host: Option<Seq<char>>,
        protocol: Seq<char>,
        timestamp_unix_ms: u64,
    },
}

#[verifier::ext_equal]
pub enum EvidenceM {
    Process { pid: u32, ppid: u32, image_path: Seq<char>, signer_publisher: Option<Seq<char>> },
    File { pid: u32, image_path: Option<Seq<char>>, file_path: Seq<char>, access: FileAccessType },
    Network {
        pid: u32,
        image_path: Option<Seq<char>>,
        dest_ip: Seq<char>,
        dest_port: u16,
        dest_host: Option<Seq<char>>,
        protocol: Seq<char>,
    },
    Correlation {
        pid: u32,
        window_seconds: u64,
        sensitive_file: Seq<char>,
        dest_ip: Seq<char>,
        dest_host: Option<Seq<char>>,
        delta_seconds: u64,
    },
    Note { message: Seq<char> },
}

#[verifier::ext_equal]
pub struct FindingM {
    pub rule_id: Seq<char>,
    pub severity: Severity,
    pub description: Seq<char>,
    pub evidence: Seq<EvidenceM>,
    pub timestamp_unix_ms: u64,
}

#[verifier::ext_equal]
pub struct IncidentM {
    pub incident_id: Seq<char>,
    pub severity: Severity,
    pub findings: Seq<FindingM>,
    pub actions_taken: Seq<Seq<char>>,
    pub created_at_unix_ms: u64,
}

impl View for Event {
    type V = EventM;

    open spec fn view(&self) -> EventM {
        match self {
            Event::ProcessStart { pid, ppid, image_path, signer_publisher, timestamp_unix_ms } => {
                EventM::ProcessStart {
                    pid: *pid,
                    ppid: *ppid,
                    image_path: image_path@,
                    signer_publisher: view_opt_str(*signer_publisher),
                    timestamp_unix_ms: *timestamp_unix_ms,
                }
            },
            Event::FileAccess { pid, image_path, file_path, access, timestamp_unix_ms } => {
                EventM::FileAccess {
                    pid: *pid,
                    image_path: view_opt_str(*image_path),
                    file_path: file_path@,
                    access: *access,
                    timestamp_unix_ms: *timestamp_unix_ms,
                }
            },
            Event::NetConnect {
                pid,
                image_path,
                dest_ip,
                dest_port,
                dest_host,
                protocol,
                timestamp_unix_ms,
            } => {
                EventM::NetConnect {
                    pid: *pid,
                    image_path: view_opt_str(*image_path),
                    dest_ip: dest_ip@,
                    dest_port: *dest_port,
                    dest_host: view_opt_str(*dest_host),
                    protocol: protocol@,
                    timestamp_unix_ms: *timestamp_unix_ms,
                }
            },
        }
    }
}

impl View for Evidence {
    type V = EvidenceM;

    open spec fn view(&self) -> EvidenceM {
        match self {
            Evidence::Process { pid, ppid, image_path, signer_publisher } => {
                EvidenceM::Process {
                    pid: *pid,
                    ppid: *ppid,
                    image_path: image_path@,
                    signer_publisher: view_opt_str(*signer_publisher),
                }
            },
            Evidence::File { pid, image_path, file_path, access } => {
                EvidenceM::File {
                    pid: *pid,
                    image_path: view_opt_str(*image_path),
                    file_path: file_path@,
                    access: *access,
                }
            },
            Evidence::Network { pid, image_path, dest_ip, dest_port, dest_host, protocol } => {
                EvidenceM::Network {
                    pid: *pid,
                    image_path: view_opt_str(*image_path),
                    dest_ip: dest_ip@,
                    dest_port: *dest_port,
                    dest_host: view_opt_str(*dest_host),
                    protocol: protocol@,
                }
            },
            Evidence::Correlation {
                pid,
                window_seconds,
                sensitive_file,
                dest_ip,
                dest_host,
                delta_seconds,
            } => {
                EvidenceM::Correlation {
                    pid: *pid,
                    window_seconds: *window_seconds,
                    sensitive_file: sensitive_file@,
                    dest_ip: dest_ip@,
                    dest_host: view_opt_str(*dest_host),
                    delta_seconds: *delta_seconds,
                }
            },
            Evidence::Note { message } => EvidenceM::Note { message: message@ },
        }
    }
}

impl View for Finding {
    type V = FindingM;

    open spec fn view(&self) -> FindingM {
        FindingM {
            rule_id: self.rule_id@,
            severity: self.severity,
            description: self.description@,
            evidence: self.evidence@.map_values(|e: Evidence| e@),
            timestamp_unix_ms: self.timestamp_unix_ms,
        }
    }
}

impl View for Incident {
    type V = IncidentM;

    open spec fn view(&self) -> IncidentM {
        IncidentM {
            incident_id: self.incident_id@,
            severity: self.severity,
            findings: self.findings@.map_values(|f: Finding| f@),
            actions_taken: self.actions_taken@.map_values(|a: String| a@),
            created_at_unix_ms: self.created_at_unix_ms,
        }
    }
}

pub open spec fn severity_rank(s: Severity) -> int {
    match s {
        Severity::Green => 0,
        Severity::Yellow => 1,
        Severity::Red => 2,
    }
}

pub open spec fn severity_max(a: Severity, b: Severity) -> Severity {
    if severity_rank(b) > severity_rank(a) {
        b
    } else {
        a
    }
}

/// The greatest severity among the findings; `Green` when there are none.
pub open spec fn max_severity_spec(fs: Seq<FindingM>) -> Severity
    decreases fs.len(),
{
    if fs.len() == 0 {
        Severity::Green
    } else {
        severity_max(max_severity_spec(fs.drop_last()), fs.last().severity)
    }
}

pub fn severity_rank_of(s: Severity) -> (r: u32)
    ensures
        r == severity_rank(s),
{
    match s {
        Severity::Green => 0,
        Severity::Yellow => 1,
        Severity::Red => 2,
    }
}

/// The greatest severity among the findings; `Green` when there are none.
pub fn max_severity(findings: &Vec<Finding>) -> (r: Severity)
    ensures
        r == max_severity_spec(findings@.map_values(|f: Finding| f@)),
{
    let ghost fsm = findings@.map_values(|f: Finding| f@);
    let mut best = Severity::Green;
    let mut i: usize = 0;
    while i < findings.len()
        invariant
            fsm == findings@.map_values(|f: Finding| f@),
            i <= findings.len(),
            best == max_severity_spec(fsm.take(i as int)),
        decreases findings.len() - i,
    {
        if severity_rank_of(findings[i].severity) > severity_rank_of(best) {
            best = findings[i].severity;
        }
        proof {
            assert(fsm.take(i + 1).drop_last() =~= fsm.take(i as int));
            assert(fsm.take(i + 1).last() == fsm[i as int]);
        }
        i += 1;
    }
    proof {
        assert(fsm.take(findings@.len() as int) =~= fsm);
    }
    best
}

/// Relies on `std::time::SystemTime::now`: the wall clock, as milliseconds
/// since the Unix epoch. Nothing can be promised of the value.
#[verifier::external_body]
pub fn now_unix_ms() -> u64 {
    std::time::SystemTime::now()
        .duration_since(std::time::UNIX_EPOCH)
        .unwrap_or_default()
        .as_millis() as u64
}

/// Whether the string parses as a textual UUID: a function of the characters
/// alone.
pub uninterp spec fn uuid_parses(s: Seq<char>) -> bool;

/// Relies on `uuid::Uuid::new_v4` and its `Display` form: a freshly drawn
/// random UUID, rendered in the hyphenated textual form, which is 36
/// characters long, holds no whitespace, and parses back through
/// `uuid::Uuid::parse_str`. All three facts hold of every outcome of the
/// random draw.
#[verifier::external_body]
pub(crate) fn new_uuid_string() -> (r: String)
    ensures
        r@.len() == 36,
        uuid_parses(r@),
        trim_spec(r@) == r@,
{
    uuid::Uuid::new_v4().to_string()
}

/// Relies on `uuid::Uuid::parse_str`: acceptance depends on the characters
/// alone.
#[verifier::external_body]
pub(crate) fn parse_uuid_ok(s: &str) -> (r: bool)
    ensures
        r == uuid_parses(s@),
{
    uuid::Uuid::parse_str(s).is_ok()
}

impl Incident {
    /// A fresh incident over the given findings: severity is the maximum of
    /// the findings' severities, no actions are recorded yet, and the id is a
    /// new random UUID.
    pub fn new(findings: Vec<Finding>) -> (r: Incident)
        ensures
            r.findings == findings,
            r.severity == max_severity_spec(findings@.map_values(|f: Finding| f@)),
            r.actions_taken@.len() == 0,
            r.incident_id@.len() == 36,
            uuid_parses(r.incident_id@),
            uuid_parses(trim_spec(r.incident_id@)),
    {
        let severity = max_severity(&findings);
        Incident {
            incident_id: new_uuid_string(),
            severity,
            findings,
            actions_taken: Vec::new(),
            created_at_unix_ms: now_unix_ms(),
        }
    }

    /// The greatest severity among this incident's findings.
    pub fn max_severity(&self) -> (r: Severity)
        ensures
            r == max_severity_spec(self@.findings),
    {
        max_severity(&self.findings)
    }
}

pub open spec fn is_sep(c: char) -> bool {
    c as u32 == 47 || c as u32 == 92
}

/// The final path component: the characters after the last `/` or `\`.
pub open spec fn file_name_spec(s: Seq<char>) -> Seq<char>
    decreases s.len(),
{
    if s.len() == 0 {
        s
    } else if is_sep(s.last()) {
        Seq::empty()
    } else {
        file_name_spec(s.drop_last()).push(s.last())
    }
}

proof fn lemma_file_name_is_skip(s: Seq<char>, k: int)
    requires
        0 <= k <= s.len(),
        forall|i: int| k <= i < s.len() ==> !is_sep(s[i]),
        k == 0 || is_sep(s[k - 1]),
    ensures
        file_name_spec(s) =~= s.skip(k),
    decreases s.len() - k,
{
    if s.len() == 0 {
    } else if k == s.len() {
        assert(is_sep(s.last()));
    } else {
        assert(!is_sep(s.last()));
        lemma_file_name_is_skip(s.drop_last(), k);
        assert(s.drop_last().skip(k).push(s.last()) =~= s.skip(k));
    }
}

fn is_sep_char(c: char) -> (r: bool)
    ensures
        r == is_sep(c),
{
    let u = c as u32;
    u == 47 || u == 92
}

/// Paths can carry user identifiers; logs keep only the final path component.
/// Returns the characters after the last path separator, or `<redacted>` when
/// that would be empty.
pub fn redact_path_for_log(path: &str) -> (r: String)
    ensures
        file_name_spec(path@).len() > 0 ==> r@ == file_name_spec(path@),
        file_name_spec(path@).len() == 0 ==> r@ == "<redacted>"@,
{
    let n = path.unicode_len();
    let mut k: usize = n;
    while k > 0 && !is_sep_char(path.get_char(k - 1))
        invariant
            n == path@.len(),
            k <= n,
            forall|i: int| k <= i < n ==> !is_sep(path@[i]),
        decreases k,
    {
        k -= 1;
    }
    proof {
        lemma_file_name_is_skip(path@, k as int);
    }
    if k == n {
        String::from_str("<redacted>")
    } else {
        let r = path.substring_char(k, n);
        assert(path@.subrange(k as int, n as int) =~= path@.skip(k as int));
        assert(file_name_spec(path@).len() > 0);
        String::from_str(r)
    }
}

} // verus!
