//! The correlation engine: per-process sliding-window state over the event
//! stream, and the findings it emits.
//!
//! The engine's behaviour is specified by `step_spec`, a pure function from
//! (configuration, engine state, event) to the next state and the findings
//! grouped into incidents; `process` is proved to fold `step_spec` over the
//! input events in order.

use std::collections::HashMap;
use std::collections::VecDeque;
use vstd::prelude::*;
use vstd::string::StringExecFns;
use crate::config::{AllowlistConfig, Config, ConfigM};
use crate::protected_paths::{classify_protected_target, classify_spec, is_under_protected_root,
    under_protected_root_spec, ProtectedTarget, Roots};
use crate::rules::{file_access_rule_findings, file_findings_spec};
use crate::text::{ends_with_fold, eq_fold, starts_with_fold, str_ends_with_fold,
    str_starts_with_fold, str_trim_empty, str_trim_eq_fold, trim_spec};
use crate::types::{view_opt_str, Event, EventM, Evidence, EvidenceM, FileAccessType, Finding,
    FindingM, Incident, IncidentM, max_severity_spec, Severity};

verus! {

/// What the engine remembers of a started process.
#[derive(Debug)]
pub struct ProcessInfo {
    pub image_path: String,
    pub signer_publisher: Option<String>,
}

#[verifier::ext_equal]
pub struct ProcInfoM {
    pub image_path: Seq<char>,
    pub signer_publisher: Option<Seq<char>>,
}

impl View for ProcessInfo {
    type V = ProcInfoM;

    open spec fn view(&self) -> ProcInfoM {
        ProcInfoM {
            image_path: self.image_path@,
            signer_publisher: view_opt_str(self.signer_publisher),
        }
    }
}

/// One sensitive access kept for later correlation.
#[derive(Debug)]
pub struct SensitiveAccess {
    pub timestamp_unix_ms: u64,
    pub file_path: String,
    pub access: FileAccessType,
    pub target: ProtectedTarget,
}

#[verifier::ext_equal]
pub struct SensM {
    pub timestamp_unix_ms: u64,
    pub file_path: Seq<char>,
    pub access: FileAccessType,
    pub target: ProtectedTarget,
}

impl View for SensitiveAccess {
    type V = SensM;

    open spec fn view(&self) -> SensM {
        SensM {
            timestamp_unix_ms: self.timestamp_unix_ms,
            file_path: self.file_path@,
            access: self.access,
            target: self.target,
        }
    }
}

/// The engine's state, as mathematical maps of per-process queues.
#[verifier::ext_equal]
pub struct EngineM {
    pub procs: Map<u32, ProcInfoM>,
    pub sensitive: Map<u32, Seq<SensM>>,
    pub enum_hits: Map<u32, Seq<u64>>,
}

pub struct Engine {
    procs: HashMap<u32, ProcessInfo>,
    sensitive: HashMap<u32, VecDeque<SensitiveAccess>>,
    enum_hits: HashMap<u32, VecDeque<u64>>,
}

impl View for Engine {
    type V = EngineM;

    closed spec fn view(&self) -> EngineM {
        EngineM {
            procs: self.procs@.map_values(|p: ProcessInfo| p@),
            sensitive: self.sensitive@.map_values(
                |q: VecDeque<SensitiveAccess>| q@.map_values(|s: SensitiveAccess| s@),
            ),
            enum_hits: self.enum_hits@.map_values(|q: VecDeque<u64>| q@),
        }
    }
}

/// Saturating subtraction, as used for all time deltas.
pub open spec fn sat_sub(a: u64, b: u64) -> u64 {
    if a >= b {
        (a - b) as u64
    } else {
        0
    }
}

/// The correlation window in milliseconds, saturating at the type bound.
pub open spec fn window_ms_of(window_s: u64) -> u64 {
    if window_s * 1000 > u64::MAX {
        u64::MAX
    } else {
        (window_s * 1000) as u64
    }
}

pub(crate) fn window_ms_exec(window_s: u64) -> (r: u64)
    ensures
        r == window_ms_of(window_s),
{
    if window_s > u64::MAX / 1000 {
        u64::MAX
    } else {
        window_s * 1000
    }
}

/// An entry survives pruning while `now - t <= window_ms` (saturating).
pub open spec fn keep_sens(e: SensM, now: u64, window_ms: u64) -> bool {
    sat_sub(now, e.timestamp_unix_ms) <= window_ms
}

/// Pruning removes the longest prefix of entries older than the window.
pub open spec fn prune_seq(q: Seq<SensM>, now: u64, window_ms: u64) -> Seq<SensM>
    decreases q.len(),
{
    if q.len() > 0 && !keep_sens(q[0], now, window_ms) {
        prune_seq(q.drop_first(), now, window_ms)
    } else {
        q
    }
}

pub open spec fn keep_enum(t: u64, now: u64) -> bool {
    sat_sub(now, t) <= 10000
}

/// Enumeration timestamps are pruned against a fixed ten-second window.
pub open spec fn prune_enum_seq(q: Seq<u64>, now: u64) -> Seq<u64>
    decreases q.len(),
{
    if q.len() > 0 && !keep_enum(q[0], now) {
        prune_enum_seq(q.drop_first(), now)
    } else {
        q
    }
}

/// Pruning one process's sensitive queue; an emptied queue leaves the map.
pub open spec fn prune_old_spec(
    m: Map<u32, Seq<SensM>>,
    pid: u32,
    now: u64,
    window_ms: u64,
) -> Map<u32, Seq<SensM>> {
    if m.contains_key(pid) {
        let q = prune_seq(m[pid], now, window_ms);
        if q.len() == 0 {
            m.remove(pid)
        } else {
            m.insert(pid, q)
        }
    } else {
        m
    }
}

pub open spec fn prune_enum_old_spec(m: Map<u32, Seq<u64>>, pid: u32, now: u64) -> Map<
    u32,
    Seq<u64>,
> {
    if m.contains_key(pid) {
        let q = prune_enum_seq(m[pid], now);
        if q.len() == 0 {
            m.remove(pid)
        } else {
            m.insert(pid, q)
        }
    } else {
        m
    }
}

/// A publisher is allowlisted when, trimmed and case-folded, it equals a
/// configured publisher trimmed and case-folded.
pub open spec fn publisher_allowlisted_spec(pubs: Seq<Seq<char>>, p: Option<Seq<char>>) -> bool {
    match p {
        None => false,
        Some(s) => exists|i: int|
            0 <= i < pubs.len() && eq_fold(trim_spec(s), trim_spec(#[trigger] pubs[i])),
    }
}

/// A path is allowlisted when a non-blank configured prefix, trimmed, is a
/// case-insensitive prefix of it.
pub open spec fn path_allowlisted_spec(prefixes: Seq<Seq<char>>, path: Seq<char>) -> bool {
    exists|i: int|
        0 <= i < prefixes.len() && trim_spec(#[trigger] prefixes[i]).len() > 0 && starts_with_fold(
            path,
            trim_spec(prefixes[i]),
        )
}

/// The known browser images, whose own accesses to their stores are expected.
pub open spec fn known_browser_spec(img: Seq<char>) -> bool {
    ends_with_fold(img, "\\chrome.exe"@) || ends_with_fold(img, "\\msedge.exe"@) || ends_with_fold(
        img,
        "\\brave.exe"@,
    ) || ends_with_fold(img, "\\firefox.exe"@)
}

/// The process info for a pid: the cached entry, or one synthesized from the
/// image path carried on the event (`<unknown>` when that is absent too).
pub open spec fn proc_info_spec(
    procs: Map<u32, ProcInfoM>,
    pid: u32,
    image: Option<Seq<char>>,
) -> ProcInfoM {
    if procs.contains_key(pid) {
        procs[pid]
    } else {
        ProcInfoM {
            image_path: match image {
                Some(s) => s,
                None => "<unknown>"@,
            },
            signer_publisher: None,
        }
    }
}

pub open spec fn blank_publisher(p: Option<Seq<char>>) -> bool {
    match p {
        None => true,
        Some(s) => trim_spec(s).len() == 0,
    }
}

pub open spec fn r008_finding(ts: u64) -> FindingM {
    FindingM {
        rule_id: "R008"@,
        severity: Severity::Yellow,
        description: "Unknown/unsigned publisher touched protected browser target"@,
        evidence: seq![EvidenceM::Note { message: "signer_publisher missing"@ }],
        timestamp_unix_ms: ts,
    }
}

pub open spec fn r007_finding(
    pid: u32,
    image: Seq<char>,
    file: Seq<char>,
    access: FileAccessType,
    ts: u64,
) -> FindingM {
    FindingM {
        rule_id: "R007"@,
        severity: Severity::Yellow,
        description: "High-rate enumeration under browser profile directories"@,
        evidence: seq![
            EvidenceM::File { pid, image_path: Some(image), file_path: file, access },
        ],
        timestamp_unix_ms: ts,
    }
}

pub open spec fn r009_finding(
    pid: u32,
    image: Seq<char>,
    acc: SensM,
    window_seconds: u64,
    dest_ip: Seq<char>,
    dest_port: u16,
    dest_host: Option<Seq<char>>,
    protocol: Seq<char>,
    delta_ms: u64,
    ts: u64,
) -> FindingM {
    FindingM {
        rule_id: "R009"@,
        severity: Severity::Red,
        description: "Sensitive browser data access followed by outbound network connection"@,
        evidence: seq![
            EvidenceM::File {
                pid,
                image_path: Some(image),
                file_path: acc.file_path,
                access: acc.access,
            },
            EvidenceM::Network {
                pid,
                image_path: Some(image),
                dest_ip,
                dest_port,
                dest_host,
                protocol,
            },
            EvidenceM::Correlation {
                pid,
                window_seconds,
                sensitive_file: acc.file_path,
                dest_ip,
                dest_host,
                delta_seconds: (delta_ms / 1000) as u64,
            },
        ],
        timestamp_unix_ms: ts,
    }
}

pub open spec fn r010_finding(ts: u64) -> FindingM {
    FindingM {
        rule_id: "R010"@,
        severity: Severity::Red,
        description: "Outbound connection after sensitive access to direct IP / unknown host"@,
        evidence: seq![EvidenceM::Note { message: "dest_host missing/empty"@ }],
        timestamp_unix_ms: ts,
    }
}

/// The result of one engine step: the next state and the findings, grouped
/// one group per incident.
#[verifier::ext_equal]
pub struct StepOut {
    pub state: EngineM,
    pub groups: Seq<Seq<FindingM>>,
}

/// One step of the correlation engine on one event.
pub open spec fn step_spec(
    cfg: ConfigM,
    local: Seq<char>,
    roam: Seq<char>,
    st: EngineM,
    ev: EventM,
) -> StepOut {
    match ev {
        EventM::ProcessStart { pid, ppid, image_path, signer_publisher, timestamp_unix_ms } => {
            StepOut {
                state: EngineM {
                    procs: st.procs.insert(pid, ProcInfoM { image_path, signer_publisher }),
                    ..st
                },
                groups: Seq::empty(),
            }
        },
        EventM::FileAccess { pid, image_path, file_path, access, timestamp_unix_ms } => step_file(
            cfg,
            local,
            roam,
            st,
            pid,
            image_path,
            file_path,
            access,
            timestamp_unix_ms,
        ),
        EventM::NetConnect {
            pid,
            image_path,
            dest_ip,
            dest_port,
            dest_host,
            protocol,
            timestamp_unix_ms,
        } => step_net(
            cfg,
            st,
            pid,
            image_path,
            dest_ip,
            dest_port,
            dest_host,
            protocol,
            timestamp_unix_ms,
        ),
    }
}

pub open spec fn step_file(
    cfg: ConfigM,
    local: Seq<char>,
    roam: Seq<char>,
    st: EngineM,
    pid: u32,
    image_path: Option<Seq<char>>,
    file_path: Seq<char>,
    access: FileAccessType,
    t: u64,
) -> StepOut {
    let wms = window_ms_of(cfg.correlation_window_seconds);
    let st1 = EngineM {
        sensitive: prune_old_spec(st.sensitive, pid, t, wms),
        enum_hits: prune_enum_old_spec(st.enum_hits, pid, t),
        ..st
    };
    if path_allowlisted_spec(cfg.allowlist.paths_allowlist, file_path) {
        StepOut { state: st1, groups: Seq::empty() }
    } else {
        let proc = proc_info_spec(st.procs, pid, image_path);
        match classify_spec(cfg.protected, local, roam, file_path) {
            None => StepOut { state: st1, groups: Seq::empty() },
            Some(target) => {
                let entry = SensM { timestamp_unix_ms: t, file_path, access, target };
                let oldq = if st1.sensitive.contains_key(pid) {
                    st1.sensitive[pid]
                } else {
                    Seq::empty()
                };
                let st2 = EngineM { sensitive: st1.sensitive.insert(pid, oldq.push(entry)), ..st1 };
                if known_browser_spec(proc.image_path) {
                    StepOut { state: st2, groups: Seq::empty() }
                } else {
                    let allow = publisher_allowlisted_spec(
                        cfg.allowlist.publishers,
                        proc.signer_publisher,
                    );
                    let f1 = if !allow {
                        file_findings_spec(
                            cfg.mode,
                            pid,
                            proc.image_path,
                            file_path,
                            access,
                            t,
                            target,
                        )
                    } else {
                        Seq::empty()
                    };
                    let f2 = if blank_publisher(proc.signer_publisher) && !allow {
                        seq![r008_finding(t)]
                    } else {
                        Seq::<FindingM>::empty()
                    };
                    if under_protected_root_spec(local, roam, file_path) && !allow {
                        let olde = if st2.enum_hits.contains_key(pid) {
                            st2.enum_hits[pid]
                        } else {
                            Seq::empty()
                        };
                        let newe = olde.push(t);
                        let st3 = EngineM { enum_hits: st2.enum_hits.insert(pid, newe), ..st2 };
                        let f3 = if newe.len() >= 50 {
                            seq![r007_finding(pid, proc.image_path, file_path, access, t)]
                        } else {
                            Seq::<FindingM>::empty()
                        };
                        let fs = f1 + f2 + f3;
                        StepOut {
                            state: st3,
                            groups: if fs.len() > 0 {
                                seq![fs]
                            } else {
                                Seq::<Seq<FindingM>>::empty()
                            },
                        }
                    } else {
                        let fs = f1 + f2;
                        StepOut {
                            state: st2,
                            groups: if fs.len() > 0 {
                                seq![fs]
                            } else {
                                Seq::<Seq<FindingM>>::empty()
                            },
                        }
                    }
                }
            },
        }
    }
}

pub open spec fn step_net(
    cfg: ConfigM,
    st: EngineM,
    pid: u32,
    image_path: Option<Seq<char>>,
    dest_ip: Seq<char>,
    dest_port: u16,
    dest_host: Option<Seq<char>>,
    protocol: Seq<char>,
    t: u64,
) -> StepOut {
    let wms = window_ms_of(cfg.correlation_window_seconds);
    let st1 = EngineM { sensitive: prune_old_spec(st.sensitive, pid, t, wms), ..st };
    let proc = proc_info_spec(st.procs, pid, image_path);
    if !(st1.sensitive.contains_key(pid) && st1.sensitive[pid].len() > 0) {
        StepOut { state: st1, groups: Seq::empty() }
    } else {
        let acc = st1.sensitive[pid].last();
        if known_browser_spec(proc.image_path) {
            StepOut { state: st1, groups: Seq::empty() }
        } else {
            let allow = publisher_allowlisted_spec(cfg.allowlist.publishers, proc.signer_publisher);
            let suspicious = !allow || !known_browser_spec(proc.image_path);
            if !suspicious {
                StepOut { state: st1, groups: Seq::empty() }
            } else {
                let delta_ms = sat_sub(t, acc.timestamp_unix_ms);
                if delta_ms > wms {
                    StepOut { state: st1, groups: Seq::empty() }
                } else {
                    let f9 = r009_finding(
                        pid,
                        proc.image_path,
                        acc,
                        cfg.correlation_window_seconds,
                        dest_ip,
                        dest_port,
                        dest_host,
                        protocol,
                        delta_ms,
                        t,
                    );
                    let fs = if blank_publisher(dest_host) {
                        seq![f9, r010_finding(t)]
                    } else {
                        seq![f9]
                    };
                    StepOut { state: st1, groups: seq![fs] }
                }
            }
        }
    }
}

/// The engine folded over an event sequence, collecting every group emitted.
pub open spec fn run_spec(
    cfg: ConfigM,
    local: Seq<char>,
    roam: Seq<char>,
    st: EngineM,
    evs: Seq<EventM>,
) -> StepOut
    decreases evs.len(),
{
    if evs.len() == 0 {
        StepOut { state: st, groups: Seq::empty() }
    } else {
        let first = step_spec(cfg, local, roam, st, evs[0]);
        let rest = run_spec(cfg, local, roam, first.state, evs.drop_first());
        StepOut { state: rest.state, groups: first.groups + rest.groups }
    }
}

pub proof fn lemma_run_snoc(
    cfg: ConfigM,
    local: Seq<char>,
    roam: Seq<char>,
    st: EngineM,
    evs: Seq<EventM>,
    ev: EventM,
)
    ensures
        run_spec(cfg, local, roam, st, evs.push(ev)).state == step_spec(
            cfg,
            local,
            roam,
            run_spec(cfg, local, roam, st, evs).state,
            ev,
        ).state,
        run_spec(cfg, local, roam, st, evs.push(ev)).groups =~= run_spec(
            cfg,
            local,
            roam,
            st,
            evs,
        ).groups + step_spec(cfg, local, roam, run_spec(cfg, local, roam, st, evs).state, ev).groups,
    decreases evs.len(),
{
    reveal_with_fuel(run_spec, 3);
    if evs.len() == 0 {
        assert(evs.push(ev)[0] == ev);
        assert(evs.push(ev).drop_first() =~= Seq::<EventM>::empty());
        let first = step_spec(cfg, local, roam, st, ev);
        assert(run_spec(cfg, local, roam, st, evs.push(ev)).state == first.state);
        assert(run_spec(cfg, local, roam, st, evs).state == st);
        assert(first.groups + Seq::<Seq<FindingM>>::empty() =~= first.groups);
    } else {
        assert(evs.push(ev)[0] == evs[0]);
        assert(evs.push(ev).drop_first() =~= evs.drop_first().push(ev));
        let first = step_spec(cfg, local, roam, st, evs[0]);
        lemma_run_snoc(cfg, local, roam, first.state, evs.drop_first(), ev);
        let restp = run_spec(cfg, local, roam, first.state, evs.drop_first().push(ev));
        let rest = run_spec(cfg, local, roam, first.state, evs.drop_first());
        assert(run_spec(cfg, local, roam, st, evs.push(ev)).state == restp.state);
        assert(run_spec(cfg, local, roam, st, evs.push(ev)).groups == first.groups + restp.groups);
        assert(run_spec(cfg, local, roam, st, evs).groups == first.groups + rest.groups);
        assert(first.groups + (rest.groups + step_spec(
            cfg,
            local,
            roam,
            rest.state,
            ev,
        ).groups) =~= (first.groups + rest.groups) + step_spec(
            cfg,
            local,
            roam,
            rest.state,
            ev,
        ).groups);
    }
}

/// Incidents correspond one to one with the emitted groups: same findings,
/// severity equal to the greatest finding severity, no actions recorded.
pub open spec fn incidents_match(incs: Seq<IncidentM>, groups: Seq<Seq<FindingM>>) -> bool {
    incs.len() == groups.len() && (forall|i: int|
        0 <= i < incs.len() ==> (#[trigger] incs[i]).findings == groups[i] && incs[i].severity
            == max_severity_spec(groups[i]) && incs[i].actions_taken.len() == 0)
}

/// The view of an optional borrowed string.
pub open spec fn view_opt_sref(o: Option<&str>) -> Option<Seq<char>> {
    match o {
        Some(s) => Some(s@),
        None => None,
    }
}

/// Case- and whitespace-insensitive membership of the publisher in the
/// configured allowlist.
pub fn publisher_allowlisted(allowlist: &AllowlistConfig, publisher: Option<&str>) -> (r: bool)
    ensures
        r == publisher_allowlisted_spec(allowlist@.publishers, view_opt_sref(publisher)),
{
    let p = match publisher {
        Some(p) => p,
        None => {
            return false;
        },
    };
    let mut i: usize = 0;
    while i < allowlist.publishers.len()
        invariant
            view_opt_sref(publisher) == Some(p@),
            i <= allowlist.publishers@.len(),
            forall|j: int|
                0 <= j < i ==> !eq_fold(trim_spec(p@), trim_spec(allowlist@.publishers[j])),
        decreases allowlist.publishers@.len() - i,
    {
        let hit = str_trim_eq_fold(p, allowlist.publishers[i].as_str());
        assert(allowlist@.publishers[i as int] == allowlist.publishers@[i as int]@);
        if hit {
            assert(publisher_allowlisted_spec(allowlist@.publishers, Some(p@))) by {
                assert(0 <= i < allowlist@.publishers.len());
                assert(eq_fold(trim_spec(p@), trim_spec(allowlist@.publishers[i as int])));
            }
            return true;
        }
        i += 1;
    }
    false
}

/// Case-insensitive prefix membership of the path in the configured
/// path allowlist; blank prefixes are ignored.
pub fn is_path_allowlisted(allowlist: &AllowlistConfig, path: &str) -> (r: bool)
    ensures
        r == path_allowlisted_spec(allowlist@.paths_allowlist, path@),
{
    let mut i: usize = 0;
    while i < allowlist.paths_allowlist.len()
        invariant
            i <= allowlist.paths_allowlist@.len(),
            forall|j: int|
                0 <= j < i ==> !(trim_spec(allowlist@.paths_allowlist[j]).len() > 0
                    && starts_with_fold(path@, trim_spec(allowlist@.paths_allowlist[j]))),
        decreases allowlist.paths_allowlist@.len() - i,
    {
        let prefix = crate::text::trim_str(allowlist.paths_allowlist[i].as_str());
        assert(allowlist@.paths_allowlist[i as int] == allowlist.paths_allowlist@[i as int]@);
        if prefix.unicode_len() > 0 && str_starts_with_fold(path, prefix) {
            return true;
        }
        i += 1;
    }
    false
}

impl Clone for ProcessInfo {
    fn clone(&self) -> (r: Self)
        ensures
            r@ == self@,
    {
        ProcessInfo {
            image_path: self.image_path.clone(),
            signer_publisher: clone_opt_string(&self.signer_publisher),
        }
    }
}

impl Clone for SensitiveAccess {
    fn clone(&self) -> (r: Self)
        ensures
            r@ == self@,
    {
        SensitiveAccess {
            timestamp_unix_ms: self.timestamp_unix_ms,
            file_path: self.file_path.clone(),
            access: self.access,
            target: self.target,
        }
    }
}

/// A copy of an optional string, with the same view.
pub fn clone_opt_string(o: &Option<String>) -> (r: Option<String>)
    ensures
        view_opt_str(r) == view_opt_str(*o),
{
    match o {
        Some(s) => Some(s.clone()),
        None => None,
    }
}

proof fn lemma_map_values_insert<K, V, W>(m: Map<K, V>, f: spec_fn(V) -> W, k: K, v: V)
    ensures
        m.insert(k, v).map_values(f) =~= m.map_values(f).insert(k, f(v)),
{
}

proof fn lemma_map_values_remove<K, V, W>(m: Map<K, V>, f: spec_fn(V) -> W, k: K)
    ensures
        m.remove(k).map_values(f) =~= m.map_values(f).remove(k),
{
}

/// The view of one sensitive-access queue.
pub open spec fn sq_view(q: VecDeque<SensitiveAccess>) -> Seq<SensM> {
    q@.map_values(|s: SensitiveAccess| s@)
}

/// The view of the whole sensitive map.
pub open spec fn smap_view(m: Map<u32, VecDeque<SensitiveAccess>>) -> Map<u32, Seq<SensM>> {
    m.map_values(|q: VecDeque<SensitiveAccess>| sq_view(q))
}

impl Engine {
    /// A fresh engine with no per-process state.
    pub fn new() -> (r: Engine)
        ensures
            r@.procs =~= Map::<u32, ProcInfoM>::empty(),
            r@.sensitive =~= Map::<u32, Seq<SensM>>::empty(),
            r@.enum_hits =~= Map::<u32, Seq<u64>>::empty(),
    {
        Engine { procs: HashMap::new(), sensitive: HashMap::new(), enum_hits: HashMap::new() }
    }

    /// Drops entries older than the correlation window from the head of the
    /// pid's sensitive queue; an emptied queue leaves the map.
    fn prune_old(&mut self, pid: u32, now_unix_ms: u64, window_seconds: u64)
        ensures
            final(self)@.sensitive == prune_old_spec(
                old(self)@.sensitive,
                pid,
                now_unix_ms,
                window_ms_of(window_seconds),
            ),
            final(self)@.procs == old(self)@.procs,
            final(self)@.enum_hits == old(self)@.enum_hits,
    {
        let window_ms = window_ms_exec(window_seconds);
        let ghost m0 = self.sensitive@;
        let q_opt = self.sensitive.remove(&pid);
        match q_opt {
            None => {
                proof {
                    assert(!m0.contains_key(pid));
                    assert(m0.remove(pid) =~= m0);
                    assert(self@ =~= old(self)@);
                    assert(!old(self)@.sensitive.contains_key(pid)) by {
                        assert(old(self)@.sensitive.dom() =~= m0.dom());
                    }
                }
            },
            Some(mut q) => {
                proof {
                    assert(m0.contains_key(pid));
                    assert(old(self)@.sensitive.contains_key(pid));
                    assert(old(self)@.sensitive[pid] == sq_view(q));
                }
                let ghost q0 = sq_view(q);
                while q.len() > 0 && now_unix_ms.saturating_sub(q[0].timestamp_unix_ms) > window_ms
                    invariant
                        prune_seq(q0, now_unix_ms, window_ms) == prune_seq(
                            sq_view(q),
                            now_unix_ms,
                            window_ms,
                        ),
                    decreases q@.len(),
                {
                    proof {
                        assert(sq_view(q)[0] == q@[0]@);
                        assert(!keep_sens(sq_view(q)[0], now_unix_ms, window_ms));
                    }
                    let ghost qb = sq_view(q);
                    let _ = q.pop_front();
                    proof {
                        assert(sq_view(q) =~= qb.drop_first());
                    }
                }
                proof {
                    if q.len() > 0 {
                        assert(keep_sens(sq_view(q)[0], now_unix_ms, window_ms)) by {
                            assert(sq_view(q)[0] == q@[0]@);
                        }
                    }
                    assert(prune_seq(sq_view(q), now_unix_ms, window_ms) == sq_view(q));
                }
                if q.len() > 0 {
                    let ghost qv = sq_view(q);
                    self.sensitive.insert(pid, q);
                    proof {
                        lemma_map_values_remove(
                            m0,
                            |qq: VecDeque<SensitiveAccess>| sq_view(qq),
                            pid,
                        );
                        lemma_map_values_insert(
                            m0.remove(pid),
                            |qq: VecDeque<SensitiveAccess>| sq_view(qq),
                            pid,
                            q,
                        );
                        assert(self@.sensitive =~= old(self)@.sensitive.insert(pid, qv)) by {
                            assert(smap_view(m0).remove(pid).insert(pid, qv) =~= smap_view(
                                m0,
                            ).insert(pid, qv));
                        }
                        assert(self@.procs =~= old(self)@.procs);
                        assert(self@.enum_hits =~= old(self)@.enum_hits);
                    }
                } else {
                    proof {
                        lemma_map_values_remove(
                            m0,
                            |qq: VecDeque<SensitiveAccess>| sq_view(qq),
                            pid,
                        );
                        assert(self@.sensitive =~= old(self)@.sensitive.remove(pid));
                        assert(self@.procs =~= old(self)@.procs);
                        assert(self@.enum_hits =~= old(self)@.enum_hits);
                    }
                }
            },
        }
    }

    /// Drops enumeration timestamps older than the fixed ten-second window.
    fn prune_enum_old(&mut self, pid: u32, now_unix_ms: u64)
        ensures
            final(self)@.enum_hits == prune_enum_old_spec(old(self)@.enum_hits, pid, now_unix_ms),
            final(self)@.procs == old(self)@.procs,
            final(self)@.sensitive == old(self)@.sensitive,
    {
        let ghost m0 = self.enum_hits@;
        let q_opt = self.enum_hits.remove(&pid);
        match q_opt {
            None => {
                proof {
                    assert(m0.remove(pid) =~= m0);
                    assert(self@ =~= old(self)@);
                    assert(!old(self)@.enum_hits.contains_key(pid)) by {
                        assert(old(self)@.enum_hits.dom() =~= m0.dom());
                    }
                }
            },
            Some(mut q) => {
                proof {
                    assert(old(self)@.enum_hits.contains_key(pid));
                    assert(old(self)@.enum_hits[pid] == q@);
                }
                let ghost q0 = q@;
                while q.len() > 0 && now_unix_ms.saturating_sub(q[0]) > 10000
                    invariant
                        prune_enum_seq(q0, now_unix_ms) == prune_enum_seq(q@, now_unix_ms),
                    decreases q@.len(),
                {
                    let ghost qb = q@;
                    let _ = q.pop_front();
                    proof {
                        assert(q@ =~= qb.drop_first());
                    }
                }
                proof {
                    assert(prune_enum_seq(q@, now_unix_ms) == q@);
                }
                if q.len() > 0 {
                    let ghost qv = q@;
                    self.enum_hits.insert(pid, q);
                    proof {
                        lemma_map_values_remove(m0, |qq: VecDeque<u64>| qq@, pid);
                        lemma_map_values_insert(m0.remove(pid), |qq: VecDeque<u64>| qq@, pid, q);
                        assert(self@.enum_hits =~= old(self)@.enum_hits.insert(pid, qv)) by {
                            assert(m0.map_values(|qq: VecDeque<u64>| qq@).remove(pid).insert(
                                pid,
                                qv,
                            ) =~= m0.map_values(|qq: VecDeque<u64>| qq@).insert(pid, qv));
                        }
                        assert(self@.procs =~= old(self)@.procs);
                        assert(self@.sensitive =~= old(self)@.sensitive);
                    }
                } else {
                    proof {
                        lemma_map_values_remove(m0, |qq: VecDeque<u64>| qq@, pid);
                        assert(self@.enum_hits =~= old(self)@.enum_hits.remove(pid));
                        assert(self@.procs =~= old(self)@.procs);
                        assert(self@.sensitive =~= old(self)@.sensitive);
                    }
                }
            },
        }
    }

    /// Appends one sensitive access to the pid's queue.
    fn push_sensitive(&mut self, pid: u32, entry: SensitiveAccess)
        ensures
            final(self)@.sensitive == old(self)@.sensitive.insert(
                pid,
                (if old(self)@.sensitive.contains_key(pid) {
                    old(self)@.sensitive[pid]
                } else {
                    Seq::<SensM>::empty()
                }).push(entry@),
            ),
            final(self)@.procs == old(self)@.procs,
            final(self)@.enum_hits == old(self)@.enum_hits,
    {
        let ghost m0 = self.sensitive@;
        let ghost ev = entry@;
        let mut q = match self.sensitive.remove(&pid) {
            Some(q) => q,
            None => VecDeque::new(),
        };
        let ghost qv = sq_view(q);
        proof {
            if m0.contains_key(pid) {
                assert(old(self)@.sensitive.contains_key(pid));
                assert(old(self)@.sensitive[pid] == qv);
            } else {
                assert(!old(self)@.sensitive.contains_key(pid)) by {
                    assert(old(self)@.sensitive.dom() =~= m0.dom());
                }
                assert(qv =~= Seq::<SensM>::empty());
            }
        }
        q.push_back(entry);
        proof {
            assert(sq_view(q) =~= qv.push(ev));
        }
        self.sensitive.insert(pid, q);
        proof {
            lemma_map_values_remove(m0, |qq: VecDeque<SensitiveAccess>| sq_view(qq), pid);
            lemma_map_values_insert(
                m0.remove(pid),
                |qq: VecDeque<SensitiveAccess>| sq_view(qq),
                pid,
                q,
            );
            assert(self@.sensitive =~= old(self)@.sensitive.insert(pid, qv.push(ev)));
            assert(self@.procs =~= old(self)@.procs);
            assert(self@.enum_hits =~= old(self)@.enum_hits);
        }
    }

    /// Appends one enumeration timestamp to the pid's queue.
    fn push_enum(&mut self, pid: u32, t: u64)
        ensures
            final(self)@.enum_hits == old(self)@.enum_hits.insert(
                pid,
                (if old(self)@.enum_hits.contains_key(pid) {
                    old(self)@.enum_hits[pid]
                } else {
                    Seq::<u64>::empty()
                }).push(t),
            ),
            final(self)@.procs == old(self)@.procs,
            final(self)@.sensitive == old(self)@.sensitive,
    {
        let ghost m0 = self.enum_hits@;
        let mut q = match self.enum_hits.remove(&pid) {
            Some(q) => q,
            None => VecDeque::new(),
        };
        let ghost qv = q@;
        proof {
            if m0.contains_key(pid) {
                assert(old(self)@.enum_hits.contains_key(pid));
                assert(old(self)@.enum_hits[pid] == qv);
            } else {
                assert(!old(self)@.enum_hits.contains_key(pid)) by {
                    assert(old(self)@.enum_hits.dom() =~= m0.dom());
                }
                assert(qv =~= Seq::<u64>::empty());
            }
        }
        q.push_back(t);
        self.enum_hits.insert(pid, q);
        proof {
            lemma_map_values_remove(m0, |qq: VecDeque<u64>| qq@, pid);
            lemma_map_values_insert(m0.remove(pid), |qq: VecDeque<u64>| qq@, pid, q);
            assert(self@.enum_hits =~= old(self)@.enum_hits.insert(pid, qv.push(t)));
            assert(self@.procs =~= old(self)@.procs);
            assert(self@.sensitive =~= old(self)@.sensitive);
        }
    }

    /// Whether the pid has reached the enumeration threshold of fifty hits
    /// inside the ten-second window.
    fn is_enumerating(&self, pid: u32) -> (r: bool)
        ensures
            r == (self@.enum_hits.contains_key(pid) && self@.enum_hits[pid].len() >= 50),
    {
        match self.enum_hits.get(&pid) {
            Some(q) => {
                proof {
                    assert(self@.enum_hits.contains_key(pid));
                    assert(self@.enum_hits[pid] == q@);
                }
                q.len() >= 50
            },
            None => {
                proof {
                    assert(!self@.enum_hits.contains_key(pid)) by {
                        assert(self@.enum_hits.dom() =~= self.enum_hits@.dom());
                    }
                }
                false
            },
        }
    }

    /// The cached process info for the pid, or one synthesized from the image
    /// path carried on the event.
    fn proc_info(&self, pid: u32, image_path: &Option<String>) -> (r: ProcessInfo)
        ensures
            r@ == proc_info_spec(self@.procs, pid, view_opt_str(*image_path)),
    {
        match self.procs.get(&pid) {
            Some(p) => {
                proof {
                    assert(self@.procs.contains_key(pid));
                    assert(self@.procs[pid] == p@);
                }
                p.clone()
            },
            None => {
                proof {
                    assert(!self@.procs.contains_key(pid)) by {
                        assert(self@.procs.dom() =~= self.procs@.dom());
                    }
                    reveal_strlit("<unknown>");
                }
                ProcessInfo {
                    image_path: match image_path {
                        Some(p) => p.clone(),
                        None => String::from_str("<unknown>"),
                    },
                    signer_publisher: None,
                }
            },
        }
    }

    /// The most recent sensitive access recorded for the pid, if any.
    fn last_sensitive(&self, pid: u32) -> (r: Option<SensitiveAccess>)
        ensures
            r is Some <==> (self@.sensitive.contains_key(pid) && self@.sensitive[pid].len() > 0),
            r matches Some(a) ==> a@ == self@.sensitive[pid].last(),
    {
        match self.sensitive.get(&pid) {
            Some(q) => {
                proof {
                    assert(self@.sensitive.contains_key(pid));
                    assert(self@.sensitive[pid] == sq_view(*q));
                }
                if q.len() == 0 {
                    None
                } else {
                    let a = q[q.len() - 1].clone();
                    proof {
                        assert(sq_view(*q)[sq_view(*q).len() - 1] == q@[q@.len() - 1]@);
                    }
                    Some(a)
                }
            },
            None => {
                proof {
                    assert(!self@.sensitive.contains_key(pid)) by {
                        assert(self@.sensitive.dom() =~= self.sensitive@.dom());
                    }
                }
                None
            },
        }
    }

    /// Records a started process's image path and publisher.
    fn record_process(&mut self, pid: u32, image_path: &String, signer_publisher: &Option<String>)
        ensures
            final(self)@.procs == old(self)@.procs.insert(
                pid,
                ProcInfoM { image_path: image_path@, signer_publisher: view_opt_str(*signer_publisher) },
            ),
            final(self)@.sensitive == old(self)@.sensitive,
            final(self)@.enum_hits == old(self)@.enum_hits,
    {
        let ghost m0 = self.procs@;
        let info = ProcessInfo {
            image_path: image_path.clone(),
            signer_publisher: clone_opt_string(signer_publisher),
        };
        self.procs.insert(pid, info);
        proof {
            lemma_map_values_insert(m0, |p: ProcessInfo| p@, pid, info);
            assert(self@.procs =~= old(self)@.procs.insert(pid, info@));
            assert(self@.sensitive =~= old(self)@.sensitive);
            assert(self@.enum_hits =~= old(self)@.enum_hits);
        }
    }
}

proof fn lemma_incidents_push(
    incs: Seq<IncidentM>,
    groups: Seq<Seq<FindingM>>,
    im: IncidentM,
    grp: Seq<FindingM>,
)
    requires
        incidents_match(incs, groups),
        im.findings == grp,
        im.severity == max_severity_spec(grp),
        im.actions_taken.len() == 0,
    ensures
        incidents_match(incs.push(im), groups.push(grp)),
{
    let incs2 = incs.push(im);
    let groups2 = groups.push(grp);
    assert forall|i: int| 0 <= i < incs2.len() implies (#[trigger] incs2[i]).findings == groups2[i]
        && incs2[i].severity == max_severity_spec(groups2[i]) && incs2[i].actions_taken.len()
        == 0 by {
        if i < incs.len() {
            assert(incs2[i] == incs[i]);
            assert(groups2[i] == groups[i]);
        } else {
            assert(incs2[i] == im);
            assert(groups2[i] == grp);
        }
    }
}

impl Engine {
    /// Handles one file-access event; returns the incident it produced, if
    /// any. Behaves as `step_file`.
    fn handle_file_event(
        &mut self,
        cfg: &Config,
        roots: &Roots,
        pid: u32,
        image_path: &Option<String>,
        file_path: &String,
        access: FileAccessType,
        t: u64,
    ) -> (inc: Option<Incident>)
        ensures
            ({
                let out = step_file(
                    cfg@,
                    roots.local_appdata@,
                    roots.roaming_appdata@,
                    old(self)@,
                    pid,
                    view_opt_str(*image_path),
                    file_path@,
                    access,
                    t,
                );
                final(self)@ == out.state && (match inc {
                    None => out.groups.len() == 0,
                    Some(i) => out.groups.len() == 1 && i@.findings == out.groups[0] && i@.severity
                        == max_severity_spec(out.groups[0]) && i@.actions_taken.len() == 0,
                })
            }),
    {
        let ghost stc = self@;
        let ghost out = step_file(
            cfg@,
            roots.local_appdata@,
            roots.roaming_appdata@,
            stc,
            pid,
            view_opt_str(*image_path),
            file_path@,
            access,
            t,
        );
        self.prune_old(pid, t, cfg.correlation_window_seconds);
        self.prune_enum_old(pid, t);
        let ghost st1 = EngineM {
            sensitive: prune_old_spec(
                stc.sensitive,
                pid,
                t,
                window_ms_of(cfg@.correlation_window_seconds),
            ),
            enum_hits: prune_enum_old_spec(stc.enum_hits, pid, t),
            ..stc
        };
        proof {
            assert(self@ =~= st1);
        }
        if is_path_allowlisted(&cfg.allowlist, file_path.as_str()) {
            proof {
                assert(self@ =~= out.state);
            }
            return None;
        }
        let proc = self.proc_info(pid, image_path);
        proof {
            assert(self@.procs =~= stc.procs);
            assert(proc@ == proc_info_spec(stc.procs, pid, view_opt_str(*image_path)));
        }
        let target = match classify_protected_target(cfg, roots, file_path.as_str()) {
            Some(target) => target,
            None => {
                proof {
                    assert(self@ =~= out.state);
                }
                return None;
            },
        };
        let entry = SensitiveAccess {
            timestamp_unix_ms: t,
            file_path: file_path.clone(),
            access,
            target,
        };
        proof {
            assert(entry@ =~= SensM { timestamp_unix_ms: t, file_path: file_path@, access, target });
        }
        self.push_sensitive(pid, entry);
        let ghost st2 = EngineM {
            sensitive: st1.sensitive.insert(
                pid,
                (if st1.sensitive.contains_key(pid) {
                    st1.sensitive[pid]
                } else {
                    Seq::<SensM>::empty()
                }).push(
                    SensM { timestamp_unix_ms: t, file_path: file_path@, access, target },
                ),
            ),
            ..st1
        };
        proof {
            assert(self@ =~= st2);
        }
        if is_browser_self_access(proc.image_path.as_str(), target) {
            proof {
                assert(self@ =~= out.state);
            }
            return None;
        }
        let publisher_ref: Option<&str> = match &proc.signer_publisher {
            Some(s) => Some(s.as_str()),
            None => None,
        };
        proof {
            assert(view_opt_sref(publisher_ref) == proc@.signer_publisher);
        }
        let allowlisted = publisher_allowlisted(&cfg.allowlist, publisher_ref);
        let ghost f1: Seq<FindingM> = if !allowlisted {
            file_findings_spec(cfg@.mode, pid, proc@.image_path, file_path@, access, t, target)
        } else {
            Seq::empty()
        };
        let mut findings: Vec<Finding> = if !allowlisted {
            file_access_rule_findings(
                cfg,
                pid,
                proc.image_path.as_str(),
                file_path.as_str(),
                access,
                t,
                target,
            )
        } else {
            Vec::new()
        };
        proof {
            assert(findings@.map_values(|f: Finding| f@) =~= f1);
        }
        let blank = match &proc.signer_publisher {
            Some(s) => str_trim_empty(s.as_str()),
            None => true,
        };
        proof {
            assert(blank == blank_publisher(proc@.signer_publisher));
        }
        let ghost f2: Seq<FindingM> = if blank && !allowlisted {
            seq![r008_finding(t)]
        } else {
            Seq::empty()
        };
        if blank && !allowlisted {
            let mut ev8: Vec<Evidence> = Vec::new();
            ev8.push(Evidence::Note { message: String::from_str("signer_publisher missing") });
            let f8 = Finding {
                rule_id: String::from_str("R008"),
                severity: Severity::Yellow,
                description: String::from_str(
                    "Unknown/unsigned publisher touched protected browser target",
                ),
                evidence: ev8,
                timestamp_unix_ms: t,
            };
            proof {
                assert(f8@ =~= r008_finding(t));
            }
            findings.push(f8);
        }
        proof {
            assert(findings@.map_values(|f: Finding| f@) =~= f1 + f2);
        }
        let under = is_under_protected_root(roots, file_path.as_str());
        let ghost mut f3: Seq<FindingM> = Seq::empty();
        if under && !allowlisted {
            self.push_enum(pid, t);
            let ghost newe = (if st2.enum_hits.contains_key(pid) {
                st2.enum_hits[pid]
            } else {
                Seq::<u64>::empty()
            }).push(t);
            proof {
                assert(self@ =~= EngineM { enum_hits: st2.enum_hits.insert(pid, newe), ..st2 });
            }
            if self.is_enumerating(pid) {
                let mut ev7: Vec<Evidence> = Vec::new();
                ev7.push(
                    Evidence::File {
                        pid,
                        image_path: Some(proc.image_path.clone()),
                        file_path: file_path.clone(),
                        access,
                    },
                );
                let f7 = Finding {
                    rule_id: String::from_str("R007"),
                    severity: Severity::Yellow,
                    description: String::from_str(
                        "High-rate enumeration under browser profile directories",
                    ),
                    evidence: ev7,
                    timestamp_unix_ms: t,
                };
                proof {
                    assert(f7@ =~= r007_finding(pid, proc@.image_path, file_path@, access, t));
                    f3 = seq![r007_finding(pid, proc@.image_path, file_path@, access, t)];
                }
                findings.push(f7);
            }
        }
        proof {
            assert(findings@.map_values(|f: Finding| f@) =~= f1 + f2 + f3);
            assert(self@ =~= out.state);
        }
        if findings.len() > 0 {
            let ghost fs = findings@.map_values(|f: Finding| f@);
            let inc = Incident::new(findings);
            proof {
                assert(out.groups =~= seq![fs]);
            }
            Some(inc)
        } else {
            proof {
                assert((f1 + f2 + f3).len() == 0);
            }
            None
        }
    }

    /// Handles one network-connect event; returns the incident it produced,
    /// if any. Behaves as `step_net`.
    fn handle_net_event(
        &mut self,
        cfg: &Config,
        pid: u32,
        image_path: &Option<String>,
        dest_ip: &String,
        dest_port: u16,
        dest_host: &Option<String>,
        protocol: &String,
        t: u64,
    ) -> (inc: Option<Incident>)
        ensures
            ({
                let out = step_net(
                    cfg@,
                    old(self)@,
                    pid,
                    view_opt_str(*image_path),
                    dest_ip@,
                    dest_port,
                    view_opt_str(*dest_host),
                    protocol@,
                    t,
                );
                final(self)@ == out.state && (match inc {
                    None => out.groups.len() == 0,
                    Some(i) => out.groups.len() == 1 && i@.findings == out.groups[0] && i@.severity
                        == max_severity_spec(out.groups[0]) && i@.actions_taken.len() == 0,
                })
            }),
    {
        let ghost stc = self@;
        let ghost out = step_net(
            cfg@,
            stc,
            pid,
            view_opt_str(*image_path),
            dest_ip@,
            dest_port,
            view_opt_str(*dest_host),
            protocol@,
            t,
        );
        self.prune_old(pid, t, cfg.correlation_window_seconds);
        proof {
            assert(self@ =~= EngineM {
                sensitive: prune_old_spec(
                    stc.sensitive,
                    pid,
                    t,
                    window_ms_of(cfg@.correlation_window_seconds),
                ),
                ..stc
            });
        }
        let proc = self.proc_info(pid, image_path);
        proof {
            assert(self@.procs =~= stc.procs);
            assert(proc@ == proc_info_spec(stc.procs, pid, view_opt_str(*image_path)));
        }
        let acc = match self.last_sensitive(pid) {
            Some(acc) => acc,
            None => {
                proof {
                    assert(self@ =~= out.state);
                }
                return None;
            },
        };
        if is_browser_self_access(proc.image_path.as_str(), acc.target) {
            proof {
                assert(self@ =~= out.state);
            }
            return None;
        }
        let publisher_ref: Option<&str> = match &proc.signer_publisher {
            Some(s) => Some(s.as_str()),
            None => None,
        };
        proof {
            assert(view_opt_sref(publisher_ref) == proc@.signer_publisher);
        }
        let allowlisted = publisher_allowlisted(&cfg.allowlist, publisher_ref);
        let suspicious = !allowlisted || !is_known_browser_image(proc.image_path.as_str());
        if !suspicious {
            proof {
                assert(self@ =~= out.state);
            }
            return None;
        }
        let window_ms = window_ms_exec(cfg.correlation_window_seconds);
        let delta_ms = t.saturating_sub(acc.timestamp_unix_ms);
        if delta_ms > window_ms {
            proof {
                assert(self@ =~= out.state);
            }
            return None;
        }
        let mut evidence: Vec<Evidence> = Vec::new();
        evidence.push(
            Evidence::File {
                pid,
                image_path: Some(proc.image_path.clone()),
                file_path: acc.file_path.clone(),
                access: acc.access,
            },
        );
        evidence.push(
            Evidence::Network {
                pid,
                image_path: Some(proc.image_path.clone()),
                dest_ip: dest_ip.clone(),
                dest_port,
                dest_host: clone_opt_string(dest_host),
                protocol: protocol.clone(),
            },
        );
        evidence.push(
            Evidence::Correlation {
                pid,
                window_seconds: cfg.correlation_window_seconds,
                sensitive_file: acc.file_path.clone(),
                dest_ip: dest_ip.clone(),
                dest_host: clone_opt_string(dest_host),
                delta_seconds: delta_ms / 1000,
            },
        );
        let f9 = Finding {
            rule_id: String::from_str("R009"),
            severity: Severity::Red,
            description: String::from_str(
                "Sensitive browser data access followed by outbound network connection",
            ),
            evidence,
            timestamp_unix_ms: t,
        };
        proof {
            assert(f9@ =~= r009_finding(
                pid,
                proc@.image_path,
                acc@,
                cfg@.correlation_window_seconds,
                dest_ip@,
                dest_port,
                view_opt_str(*dest_host),
                protocol@,
                delta_ms,
                t,
            ));
        }
        let mut findings: Vec<Finding> = Vec::new();
        findings.push(f9);
        let host_blank = match dest_host {
            Some(h) => str_trim_empty(h.as_str()),
            None => true,
        };
        proof {
            assert(host_blank == blank_publisher(view_opt_str(*dest_host)));
        }
        if host_blank {
            let mut ev10: Vec<Evidence> = Vec::new();
            ev10.push(Evidence::Note { message: String::from_str("dest_host missing/empty") });
            let f10 = Finding {
                rule_id: String::from_str("R010"),
                severity: Severity::Red,
                description: String::from_str(
                    "Outbound connection after sensitive access to direct IP / unknown host",
                ),
                evidence: ev10,
                timestamp_unix_ms: t,
            };
            proof {
                assert(f10@ =~= r010_finding(t));
            }
            findings.push(f10);
        }
        let ghost fs = findings@.map_values(|f: Finding| f@);
        let ghost f9m = r009_finding(
            pid,
            proc@.image_path,
            acc@,
            cfg@.correlation_window_seconds,
            dest_ip@,
            dest_port,
            view_opt_str(*dest_host),
            protocol@,
            delta_ms,
            t,
        );
        proof {
            if host_blank {
                assert(fs =~= seq![f9m, r010_finding(t)]);
            } else {
                assert(fs =~= seq![f9m]);
            }
            assert(out.groups =~= seq![fs]);
            assert(self@ =~= out.state);
        }
        let inc = Incident::new(findings);
        Some(inc)
    }

    /// Runs the engine over the events in order, returning the incidents
    /// produced. Behaves as `run_spec` folded over the events.
    pub fn process(&mut self, cfg: &Config, roots: &Roots, events: &Vec<Event>) -> (incidents: Vec<
        Incident,
    >)
        ensures
            ({
                let out = run_spec(
                    cfg@,
                    roots.local_appdata@,
                    roots.roaming_appdata@,
                    old(self)@,
                    events@.map_values(|e: Event| e@),
                );
                final(self)@ == out.state && incidents_match(
                    incidents@.map_values(|x: Incident| x@),
                    out.groups,
                )
            }),
    {
        let ghost cfgm = cfg@;
        let ghost local = roots.local_appdata@;
        let ghost roam = roots.roaming_appdata@;
        let ghost evsm = events@.map_values(|e: Event| e@);
        let ghost st0 = self@;
        let mut incidents: Vec<Incident> = Vec::new();
        let mut idx: usize = 0;
        while idx < events.len()
            invariant
                cfgm == cfg@,
                local == roots.local_appdata@,
                roam == roots.roaming_appdata@,
                evsm == events@.map_values(|e: Event| e@),
                idx <= events@.len(),
                self@ == run_spec(cfgm, local, roam, st0, evsm.take(idx as int)).state,
                incidents_match(
                    incidents@.map_values(|x: Incident| x@),
                    run_spec(cfgm, local, roam, st0, evsm.take(idx as int)).groups,
                ),
            decreases events@.len() - idx,
        {
            let ghost pre = run_spec(cfgm, local, roam, st0, evsm.take(idx as int));
            let ghost stc = self@;
            proof {
                assert(evsm[idx as int] == events@[idx as int]@);
            }
            let ghost evm = evsm[idx as int];
            let ghost stepo = step_spec(cfgm, local, roam, stc, evm);
            let ev = &events[idx];
            let inc_opt: Option<Incident> = match ev {
                Event::ProcessStart {
                    pid,
                    ppid,
                    image_path,
                    signer_publisher,
                    timestamp_unix_ms,
                } => {
                    self.record_process(*pid, image_path, signer_publisher);
                    proof {
                        assert(self@ =~= stepo.state);
                    }
                    None
                },
                Event::FileAccess { pid, image_path, file_path, access, timestamp_unix_ms } => {
                    let r = self.handle_file_event(
                        cfg,
                        roots,
                        *pid,
                        image_path,
                        file_path,
                        *access,
                        *timestamp_unix_ms,
                    );
                    proof {
                        assert(stepo == step_file(
                            cfgm,
                            local,
                            roam,
                            stc,
                            *pid,
                            view_opt_str(*image_path),
                            file_path@,
                            *access,
                            *timestamp_unix_ms,
                        ));
                    }
                    r
                },
                Event::NetConnect {
                    pid,
                    image_path,
                    dest_ip,
                    dest_port,
                    dest_host,
                    protocol,
                    timestamp_unix_ms,
                } => {
                    let r = self.handle_net_event(
                        cfg,
                        *pid,
                        image_path,
                        dest_ip,
                        *dest_port,
                        dest_host,
                        protocol,
                        *timestamp_unix_ms,
                    );
                    proof {
                        assert(stepo == step_net(
                            cfgm,
                            stc,
                            *pid,
                            view_opt_str(*image_path),
                            dest_ip@,
                            *dest_port,
                            view_opt_str(*dest_host),
                            protocol@,
                            *timestamp_unix_ms,
                        ));
                    }
                    r
                },
            };
            proof {
                lemma_run_snoc(cfgm, local, roam, st0, evsm.take(idx as int), evm);
                assert(evsm.take(idx as int).push(evm) =~= evsm.take(idx + 1));
            }
            let ghost incs_before = incidents@.map_values(|x: Incident| x@);
            match inc_opt {
                Some(inc) => {
                    let ghost im = inc@;
                    incidents.push(inc);
                    proof {
                        assert(incidents@.map_values(|x: Incident| x@) =~= incs_before.push(im));
                        lemma_incidents_push(incs_before, pre.groups, im, stepo.groups[0]);
                        assert(pre.groups.push(stepo.groups[0]) =~= pre.groups + stepo.groups);
                    }
                },
                None => {
                    proof {
                        assert(pre.groups + stepo.groups =~= pre.groups);
                    }
                },
            }
            idx += 1;
        }
        proof {
            assert(evsm.take(events@.len() as int) =~= evsm);
        }
        incidents
    }
}

/// Some finding with the given rule id appears among the emitted groups.
pub open spec fn has_rule(groups: Seq<Seq<FindingM>>, rule: Seq<char>) -> bool {
    exists|i: int, j: int|
        0 <= i < groups.len() && 0 <= j < groups[i].len() && (#[trigger] groups[i][j]).rule_id
            == rule
}

/// The engine with no per-process state.
pub open spec fn empty_engine() -> EngineM {
    EngineM {
        procs: Map::<u32, ProcInfoM>::empty(),
        sensitive: Map::<u32, Seq<SensM>>::empty(),
        enum_hits: Map::<u32, Seq<u64>>::empty(),
    }
}

/// A run splits at any index: the events before it fold to the state the
/// step at that index sees, and the run's output is the output of the events
/// before, then the step's own, then the output of the events after from the
/// step's resulting state.
pub proof fn lemma_run_splits_at(
    cfg: ConfigM,
    local: Seq<char>,
    roam: Seq<char>,
    st0: EngineM,
    evs: Seq<EventM>,
    j: int,
)
    requires
        0 <= j < evs.len(),
    ensures
        ({
            let pre = run_spec(cfg, local, roam, st0, evs.take(j));
            let stepj = step_spec(cfg, local, roam, pre.state, evs[j]);
            let post = run_spec(cfg, local, roam, stepj.state, evs.skip(j + 1));
            run_spec(cfg, local, roam, st0, evs).state == post.state && run_spec(
                cfg,
                local,
                roam,
                st0,
                evs,
            ).groups =~= pre.groups + stepj.groups + post.groups
        }),
    decreases j,
{
    reveal_with_fuel(run_spec, 2);
    if j == 0 {
        assert(evs.take(0) =~= Seq::<EventM>::empty());
        let pre = run_spec(cfg, local, roam, st0, evs.take(0));
        assert(pre.state == st0 && pre.groups =~= Seq::<Seq<FindingM>>::empty());
        let stepj = step_spec(cfg, local, roam, st0, evs[0]);
        assert(evs.drop_first() =~= evs.skip(1));
        let post = run_spec(cfg, local, roam, stepj.state, evs.skip(1));
        assert(run_spec(cfg, local, roam, st0, evs).groups == stepj.groups + post.groups);
        assert(stepj.groups + post.groups =~= pre.groups + stepj.groups + post.groups);
    } else {
        let first = step_spec(cfg, local, roam, st0, evs[0]);
        let rest = evs.drop_first();
        lemma_run_splits_at(cfg, local, roam, first.state, rest, j - 1);
        assert(rest.take(j - 1) =~= evs.take(j).drop_first());
        assert(rest[j - 1] == evs[j]);
        assert(rest.skip(j) =~= evs.skip(j + 1));
        // The state before index j is the same whether reached through the
        // whole stream's first step or through the prefix's first step.
        let pre = run_spec(cfg, local, roam, st0, evs.take(j));
        let pre_inner = run_spec(cfg, local, roam, first.state, rest.take(j - 1));
        assert(evs.take(j)[0] == evs[0]);
        assert(pre.state == pre_inner.state && pre.groups == first.groups + pre_inner.groups);
        let stepj = step_spec(cfg, local, roam, pre.state, evs[j]);
        let post = run_spec(cfg, local, roam, stepj.state, evs.skip(j + 1));
        assert(run_spec(cfg, local, roam, first.state, rest).groups =~= pre_inner.groups
            + stepj.groups + post.groups);
        assert(run_spec(cfg, local, roam, st0, evs).groups == first.groups + run_spec(
            cfg,
            local,
            roam,
            first.state,
            rest,
        ).groups);
        assert(first.groups + (pre_inner.groups + stepj.groups + post.groups) =~= (first.groups
            + pre_inner.groups) + stepj.groups + post.groups);
    }
}

/// The chain law over any event stream. When a network connect is processed,
/// the engine's state is the fold of the events before it; writing `acc` for
/// the process's most recent recorded sensitive access surviving the window
/// prune at that moment, the connect's step emits exactly one incident group,
/// led by the red `R009` finding whose correlation evidence names
/// `acc.file_path` and the delta in seconds, precisely when the process's
/// image as the engine then knows it is not a known browser and the access
/// lies within the correlation window (inclusive); when the image is a known
/// browser, no access survives the prune, or the access lies outside the
/// window, the step emits nothing. `lemma_run_splits_at` places that group
/// within the whole run's output.
pub proof fn lemma_chain_red_any_stream(
    cfg: ConfigM,
    local: Seq<char>,
    roam: Seq<char>,
    st0: EngineM,
    evs: Seq<EventM>,
    j: int,
)
    requires
        0 <= j < evs.len(),
        evs[j] is NetConnect,
    ensures
        ({
            let pre = run_spec(cfg, local, roam, st0, evs.take(j));
            let stepj = step_spec(cfg, local, roam, pre.state, evs[j]);
            let post = run_spec(cfg, local, roam, stepj.state, evs.skip(j + 1));
            &&& run_spec(cfg, local, roam, st0, evs).groups =~= pre.groups + stepj.groups
                + post.groups
            &&& (evs[j] matches EventM::NetConnect {
                pid,
                image_path,
                dest_ip,
                dest_port,
                dest_host,
                protocol,
                timestamp_unix_ms,
            } ==> {
                let wms = window_ms_of(cfg.correlation_window_seconds);
                let sens = prune_old_spec(pre.state.sensitive, pid, timestamp_unix_ms, wms);
                let proc = proc_info_spec(pre.state.procs, pid, image_path);
                let has_acc = sens.contains_key(pid) && sens[pid].len() > 0;
                &&& ((has_acc && !known_browser_spec(proc.image_path) && sat_sub(
                    timestamp_unix_ms,
                    sens[pid].last().timestamp_unix_ms,
                ) <= wms) ==> {
                    let acc = sens[pid].last();
                    let delta_ms = sat_sub(timestamp_unix_ms, acc.timestamp_unix_ms);
                    &&& stepj.groups.len() == 1
                    &&& stepj.groups[0].len() == (if blank_publisher(dest_host) {
                        2int
                    } else {
                        1int
                    })
                    &&& stepj.groups[0][0] == r009_finding(
                        pid,
                        proc.image_path,
                        acc,
                        cfg.correlation_window_seconds,
                        dest_ip,
                        dest_port,
                        dest_host,
                        protocol,
                        delta_ms,
                        timestamp_unix_ms,
                    )
                    &&& stepj.groups[0][0].severity == Severity::Red
                })
                &&& ((!has_acc || known_browser_spec(proc.image_path) || (has_acc && sat_sub(
                    timestamp_unix_ms,
                    sens[pid].last().timestamp_unix_ms,
                ) > wms)) ==> stepj.groups.len() == 0)
            })
        }),
{
    lemma_run_splits_at(cfg, local, roam, st0, evs, j);
}

/// The credential-exfiltration chain law for the bare two-event stream,
/// covering the recording side that `lemma_chain_red_any_stream` takes as
/// given. For a file access to a protected target followed by a network
/// connect of the same process (same pid and image, no publisher on record):
/// when the image is not a known browser, the file path is not allowlisted,
/// and the connect comes within the correlation window (inclusive), rule
/// `R009` fires at severity red; when the image is a browser, the path is
/// allowlisted, or the connect falls outside the window, it does not.
pub proof fn lemma_chain_red(
    cfg: ConfigM,
    local: Seq<char>,
    roam: Seq<char>,
    pid: u32,
    img: Seq<char>,
    a_path: Seq<char>,
    a_access: FileAccessType,
    ta: u64,
    dest_ip: Seq<char>,
    dest_port: u16,
    dest_host: Option<Seq<char>>,
    protocol: Seq<char>,
    tb: u64,
)
    requires
        classify_spec(cfg.protected, local, roam, a_path) is Some,
    ensures
        ({
            let a = EventM::FileAccess {
                pid,
                image_path: Some(img),
                file_path: a_path,
                access: a_access,
                timestamp_unix_ms: ta,
            };
            let b = EventM::NetConnect {
                pid,
                image_path: Some(img),
                dest_ip,
                dest_port,
                dest_host,
                protocol,
                timestamp_unix_ms: tb,
            };
            let out = run_spec(cfg, local, roam, empty_engine(), seq![a, b]);
            let wms = window_ms_of(cfg.correlation_window_seconds);
            let path_allowed = path_allowlisted_spec(cfg.allowlist.paths_allowlist, a_path);
            &&& (!known_browser_spec(img) && !path_allowed && sat_sub(tb, ta) <= wms ==> {
                &&& has_rule(out.groups, "R009"@)
                &&& out.groups.len() > 0
                &&& out.groups.last()[0].rule_id == "R009"@
                &&& out.groups.last()[0].severity == Severity::Red
            })
            &&& (known_browser_spec(img) || path_allowed || sat_sub(tb, ta) > wms ==> !has_rule(
                out.groups,
                "R009"@,
            ))
        }),
{
    reveal_with_fuel(run_spec, 3);
    let a = EventM::FileAccess {
        pid,
        image_path: Some(img),
        file_path: a_path,
        access: a_access,
        timestamp_unix_ms: ta,
    };
    let b = EventM::NetConnect {
        pid,
        image_path: Some(img),
        dest_ip,
        dest_port,
        dest_host,
        protocol,
        timestamp_unix_ms: tb,
    };
    let evs = seq![a, b];
    assert(evs[0] == a);
    assert(evs.drop_first() =~= seq![b]);
    assert(evs.drop_first()[0] == b);
    assert(evs.drop_first().drop_first() =~= Seq::<EventM>::empty());
    let st0 = empty_engine();
    let wms = window_ms_of(cfg.correlation_window_seconds);
    let target = classify_spec(cfg.protected, local, roam, a_path)->Some_0;
    let path_allowed = path_allowlisted_spec(cfg.allowlist.paths_allowlist, a_path);

    // The first step: pruning leaves the empty maps unchanged.
    assert(prune_old_spec(st0.sensitive, pid, ta, wms) =~= st0.sensitive);
    assert(prune_enum_old_spec(st0.enum_hits, pid, ta) =~= st0.enum_hits);
    let s1 = step_spec(cfg, local, roam, st0, a);
    let proc = proc_info_spec(st0.procs, pid, Some(img));
    assert(proc.image_path == img);
    assert(proc.signer_publisher is None);
    assert(!publisher_allowlisted_spec(cfg.allowlist.publishers, proc.signer_publisher));

    if path_allowed {
        // The access is never recorded, so the connect finds nothing.
        assert(!s1.state.sensitive.contains_key(pid));
        let s2 = step_spec(cfg, local, roam, s1.state, b);
        assert(prune_old_spec(s1.state.sensitive, pid, tb, wms) =~= s1.state.sensitive);
        assert(s2.groups =~= Seq::<Seq<FindingM>>::empty());
        assert(s1.groups =~= Seq::<Seq<FindingM>>::empty());
        let out = run_spec(cfg, local, roam, st0, evs);
        assert(out.groups =~= Seq::<Seq<FindingM>>::empty());
    } else {
        // The access is recorded unconditionally.
        let entry = SensM {
            timestamp_unix_ms: ta,
            file_path: a_path,
            access: a_access,
            target,
        };
        let q1 = Seq::<SensM>::empty().push(entry);
        assert(s1.state.sensitive =~= st0.sensitive.insert(pid, q1));
        assert(s1.state.sensitive.contains_key(pid));
        assert(s1.state.sensitive[pid] == q1);
        assert(s1.state.procs =~= st0.procs);
        // No finding of the first step is an R009: the publisher is unknown,
        // so the group (when the image is no browser) holds the per-target
        // advisory finding, the R008 finding, and never an enumeration
        // finding (the queue has a single timestamp).
        let f1 = file_findings_spec(cfg.mode, pid, img, a_path, a_access, ta, target);
        assert(blank_publisher(proc.signer_publisher));
        assert(forall|j: int| 0 <= j < f1.len() ==> (#[trigger] f1[j]).rule_id != "R009"@) by {
            crate::rules::lemma_rule_ids_not_r009();
        }
        assert(forall|i: int, j: int|
            0 <= i < s1.groups.len() && 0 <= j < s1.groups[i].len() ==> (
            #[trigger] s1.groups[i][j]).rule_id != "R009"@) by {
            crate::rules::lemma_rule_ids_not_r009();
            if !known_browser_spec(img) {
                let f2 = seq![r008_finding(ta)];
                if under_protected_root_spec(local, roam, a_path) {
                    let newe = Seq::<u64>::empty().push(ta);
                    assert(newe.len() < 50);
                    assert(s1.groups =~= seq![f1 + f2 + Seq::<FindingM>::empty()]);
                } else {
                    assert(s1.groups =~= seq![f1 + f2]);
                }
                assert forall|i: int, j: int|
                    0 <= i < s1.groups.len() && 0 <= j < s1.groups[i].len() implies (
                #[trigger] s1.groups[i][j]).rule_id != "R009"@ by {
                    assert(i == 0);
                    if j < f1.len() {
                        assert(s1.groups[0][j] == f1[j]);
                    } else {
                        assert(s1.groups[0][j] == r008_finding(ta));
                    }
                }
            } else {
                assert(s1.groups =~= Seq::<Seq<FindingM>>::empty());
            }
        }
        let proc2 = proc_info_spec(s1.state.procs, pid, Some(img));
        assert(proc2.image_path == img);
        let s2 = step_spec(cfg, local, roam, s1.state, b);
        if sat_sub(tb, ta) <= wms {
            // The entry survives pruning and is the most recent access.
            assert(keep_sens(entry, tb, wms));
            assert(prune_seq(q1, tb, wms) == q1);
            assert(prune_old_spec(s1.state.sensitive, pid, tb, wms) =~= s1.state.sensitive.insert(
                pid,
                q1,
            ));
            let st1n = EngineM {
                sensitive: prune_old_spec(s1.state.sensitive, pid, tb, wms),
                ..s1.state
            };
            assert(st1n.sensitive.contains_key(pid) && st1n.sensitive[pid].len() > 0);
            assert(st1n.sensitive[pid].last() == entry);
            if !known_browser_spec(img) {
                assert(s2.groups.len() == 1);
                assert(s2.groups[0][0].rule_id == "R009"@);
                assert(s2.groups[0][0].severity == Severity::Red);
                let out = run_spec(cfg, local, roam, st0, evs);
                assert(out.groups == s1.groups + s2.groups);
                assert(out.groups.last() == s2.groups[0]) by {
                    assert(out.groups.len() == s1.groups.len() + 1);
                    assert(out.groups[out.groups.len() - 1] == s2.groups[0]);
                }
                assert(has_rule(out.groups, "R009"@)) by {
                    assert(out.groups[out.groups.len() - 1][0].rule_id == "R009"@);
                }
            } else {
                // Browser self-access stays silent at both steps.
                assert(s2.groups =~= Seq::<Seq<FindingM>>::empty());
                let out = run_spec(cfg, local, roam, st0, evs);
                assert(out.groups =~= s1.groups);
            }
        } else {
            // The entry is pruned before the connect is considered.
            assert(!keep_sens(entry, tb, wms));
            assert(prune_seq(q1, tb, wms) =~= prune_seq(q1.drop_first(), tb, wms));
            assert(q1.drop_first() =~= Seq::<SensM>::empty());
            assert(prune_seq(q1, tb, wms).len() == 0);
            assert(prune_old_spec(s1.state.sensitive, pid, tb, wms) =~= s1.state.sensitive.remove(
                pid,
            ));
            assert(s2.groups =~= Seq::<Seq<FindingM>>::empty());
            let out = run_spec(cfg, local, roam, st0, evs);
            assert(out.groups =~= s1.groups);
        }
        // Whenever only the first step's groups remain, no R009 is present.
        if known_browser_spec(img) || sat_sub(tb, ta) > wms {
            let out = run_spec(cfg, local, roam, st0, evs);
            assert(!has_rule(out.groups, "R009"@));
        }
    }
}

/// Whether the image is one of the known browser executables.
pub fn is_known_browser_image(image_path: &str) -> (r: bool)
    ensures
        r == known_browser_spec(image_path@),
{
    str_ends_with_fold(image_path, "\\chrome.exe") || str_ends_with_fold(image_path, "\\msedge.exe")
        || str_ends_with_fold(image_path, "\\brave.exe") || str_ends_with_fold(
        image_path,
        "\\firefox.exe",
    )
}

/// A known browser touching its own stores is expected and stays silent,
/// whatever the target.
pub fn is_browser_self_access(image_path: &str, _target: ProtectedTarget) -> (r: bool)
    ensures
        r == known_browser_spec(image_path@),
{
    is_known_browser_image(image_path)
}

} // verus!
