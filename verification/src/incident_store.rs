//! The incident store's listing logic.
//!
//! Incidents are persisted one file per incident; the surrounding binary does
//! the writes and reads and mirrors the directory here as a log of records
//! ordered by modification time. Listing walks from the newest entry,
//! considers up to `limit` entries, and tolerates records that failed to
//! parse by skipping them.

use vstd::prelude::*;
use crate::config::{clone_strings, strs_view};
use crate::types::{Incident, Severity};

verus! {

/// What a listing reports of one stored incident.
#[derive(Debug)]
pub struct IncidentSummary {
    pub incident_id: String,
    pub created_at_unix_ms: u64,
    pub severity: Severity,
    pub rule_ids: Vec<String>,
}

#[verifier::ext_equal]
pub struct IncidentSummaryM {
    pub incident_id: Seq<char>,
    pub created_at_unix_ms: u64,
    pub severity: Severity,
    pub rule_ids: Seq<Seq<char>>,
}

impl View for IncidentSummary {
    type V = IncidentSummaryM;

    open spec fn view(&self) -> IncidentSummaryM {
        IncidentSummaryM {
            incident_id: self.incident_id@,
            created_at_unix_ms: self.created_at_unix_ms,
            severity: self.severity,
            rule_ids: strs_view(self.rule_ids@),
        }
    }
}

impl Clone for IncidentSummary {
    fn clone(&self) -> (r: Self)
        ensures
            r@ == self@,
    {
        let r = IncidentSummary {
            incident_id: self.incident_id.clone(),
            created_at_unix_ms: self.created_at_unix_ms,
            severity: self.severity,
            rule_ids: clone_strings(&self.rule_ids),
        };
        proof {
            assert(r@ =~= self@);
        }
        r
    }
}

/// The summary of an incident: its id, creation time, severity, and the rule
/// ids of its findings in order.
pub fn summarize(incident: &Incident) -> (r: IncidentSummary)
    ensures
        r@.incident_id == incident@.incident_id,
        r@.created_at_unix_ms == incident@.created_at_unix_ms,
        r@.severity == incident@.severity,
        r@.rule_ids =~= incident@.findings.map_values(|f: crate::types::FindingM| f.rule_id),
{
    let mut rule_ids: Vec<String> = Vec::new();
    let mut i: usize = 0;
    while i < incident.findings.len()
        invariant
            i <= incident.findings@.len(),
            strs_view(rule_ids@) =~= incident@.findings.map_values(
                |f: crate::types::FindingM| f.rule_id,
            ).take(i as int),
        decreases incident.findings@.len() - i,
    {
        let ghost rv0 = rule_ids@;
        rule_ids.push(incident.findings[i].rule_id.clone());
        proof {
            let all = incident@.findings.map_values(|f: crate::types::FindingM| f.rule_id);
            assert(all[i as int] == incident.findings@[i as int]@.rule_id);
            assert(rv0.len() == i as int) by {
                assert(strs_view(rv0).len() == rv0.len());
            }
            assert(rule_ids@ == rv0.push(incident.findings@[i as int].rule_id));
            assert(strs_view(rule_ids@) =~= all.take(i + 1)) by {
                assert forall|j: int| 0 <= j < i + 1 implies #[trigger] strs_view(rule_ids@)[j]
                    == all.take(i + 1)[j] by {
                    assert(strs_view(rule_ids@)[j] == rule_ids@[j]@);
                    assert(all[j] == incident.findings@[j]@.rule_id);
                    if j < i {
                        assert(rule_ids@[j] == rv0[j]);
                        assert(strs_view(rv0)[j] == all.take(i as int)[j]);
                    } else {
                        assert(rule_ids@[j] == incident.findings@[i as int].rule_id);
                    }
                }
            }
        }
        i += 1;
    }
    proof {
        let all = incident@.findings.map_values(|f: crate::types::FindingM| f.rule_id);
        assert(all.take(all.len() as int) =~= all);
    }
    IncidentSummary {
        incident_id: incident.incident_id.clone(),
        created_at_unix_ms: incident.created_at_unix_ms,
        severity: incident.severity,
        rule_ids,
    }
}

/// One record in the directory mirror: its modification time, whether its
/// contents parse back as an incident, and the summary parsed out of it.
#[derive(Debug)]
pub struct IncidentRecord {
    pub mtime_unix_ms: u64,
    pub parse_ok: bool,
    pub summary: IncidentSummary,
}

#[verifier::ext_equal]
pub struct IncidentRecordM {
    pub mtime_unix_ms: u64,
    pub parse_ok: bool,
    pub summary: IncidentSummaryM,
}

impl View for IncidentRecord {
    type V = IncidentRecordM;

    open spec fn view(&self) -> IncidentRecordM {
        IncidentRecordM {
            mtime_unix_ms: self.mtime_unix_ms,
            parse_ok: self.parse_ok,
            summary: self.summary@,
        }
    }
}

/// The incidents directory as a log ordered by modification time, oldest
/// first. The surrounding binary keeps it in step with the files on disk.
#[derive(Debug)]
pub struct IncidentLog {
    pub records: Vec<IncidentRecord>,
}

/// Modification times never decrease along the log.
pub open spec fn log_ordered(records: Seq<IncidentRecordM>) -> bool {
    forall|i: int, j: int|
        0 <= i < j < records.len() ==> (#[trigger] records[i]).mtime_unix_ms <= (
        #[trigger] records[j]).mtime_unix_ms
}

/// What listing returns: walking from the newest record, up to `limit`
/// entries are considered, and those that parse contribute their summaries.
pub open spec fn list_recent_spec(records: Seq<IncidentRecordM>, limit: nat) -> Seq<
    IncidentSummaryM,
>
    decreases records.len(),
{
    if limit == 0 || records.len() == 0 {
        Seq::empty()
    } else {
        let tail = records.last();
        let rest = list_recent_spec(records.drop_last(), (limit - 1) as nat);
        if tail.parse_ok {
            seq![tail.summary] + rest
        } else {
            rest
        }
    }
}

impl View for IncidentLog {
    type V = Seq<IncidentRecordM>;

    open spec fn view(&self) -> Seq<IncidentRecordM> {
        self.records@.map_values(|r: IncidentRecord| r@)
    }
}

impl IncidentLog {
    /// An empty log.
    pub fn new() -> (r: IncidentLog)
        ensures
            r@ =~= Seq::<IncidentRecordM>::empty(),
    {
        IncidentLog { records: Vec::new() }
    }

    /// Appends one mirrored directory record, whose time is no earlier than
    /// anything already in the log.
    pub fn push_record(&mut self, record: IncidentRecord)
        requires
            forall|i: int|
                0 <= i < old(self)@.len() ==> (#[trigger] old(self)@[i]).mtime_unix_ms
                    <= record.mtime_unix_ms,
        ensures
            final(self)@ == old(self)@.push(record@),
            log_ordered(old(self)@) ==> log_ordered(final(self)@),
    {
        let ghost recm = record@;
        self.records.push(record);
        proof {
            assert(self@ =~= old(self)@.push(recm));
            if log_ordered(old(self)@) {
                assert forall|i: int, j: int| 0 <= i < j < self@.len() implies (
                #[trigger] self@[i]).mtime_unix_ms <= (#[trigger] self@[j]).mtime_unix_ms by {
                    if j < self@.len() - 1 {
                        assert(old(self)@[i].mtime_unix_ms <= old(self)@[j].mtime_unix_ms);
                    }
                }
            }
        }
    }

    /// Records a stored incident. The write happens at `mtime_unix_ms`, which
    /// is no earlier than anything already stored.
    pub fn store_incident(&mut self, incident: &Incident, mtime_unix_ms: u64)
        requires
            forall|i: int|
                0 <= i < old(self)@.len() ==> (#[trigger] old(self)@[i]).mtime_unix_ms
                    <= mtime_unix_ms,
        ensures
            final(self)@.len() == old(self)@.len() + 1,
            final(self)@.drop_last() == old(self)@,
            final(self)@.last().mtime_unix_ms == mtime_unix_ms,
            final(self)@.last().parse_ok,
            final(self)@.last().summary.incident_id == incident@.incident_id,
            final(self)@.last().summary.created_at_unix_ms == incident@.created_at_unix_ms,
            final(self)@.last().summary.severity == incident@.severity,
            final(self)@.last().summary.rule_ids == incident@.findings.map_values(
                |f: crate::types::FindingM| f.rule_id,
            ),
            log_ordered(old(self)@) ==> log_ordered(final(self)@),
    {
        let summary = summarize(incident);
        let rec = IncidentRecord { mtime_unix_ms, parse_ok: true, summary };
        self.push_record(rec);
        proof {
            assert(self@.drop_last() =~= old(self)@);
        }
    }

    /// Lists up to `limit` of the most recent entries, newest first, skipping
    /// records that do not parse.
    pub fn list_recent(&self, limit: usize) -> (r: Vec<IncidentSummary>)
        ensures
            r@.map_values(|s: IncidentSummary| s@) == list_recent_spec(self@, limit as nat),
    {
        let mut out: Vec<IncidentSummary> = Vec::new();
        let mut considered: usize = 0;
        let n = self.records.len();
        proof {
            assert(self@.subrange(0, n as int) =~= self@);
            assert(list_recent_spec(self@, limit as nat).skip(0) =~= list_recent_spec(
                self@,
                limit as nat,
            ));
        }
        while considered < limit && considered < n
            invariant
                n == self@.len(),
                considered <= n,
                considered <= limit,
                out@.map_values(|s: IncidentSummary| s@) =~= list_recent_spec(
                    self@,
                    limit as nat,
                ).take(out@.len() as int),
                list_recent_spec(self@, limit as nat).len() >= out@.len(),
                list_recent_spec(self@.subrange(0, n - considered), (limit - considered) as nat)
                    =~= list_recent_spec(self@, limit as nat).skip(out@.len() as int),
            decreases n - considered,
        {
            let idx = n - 1 - considered;
            let ghost pre = self@.subrange(0, n - considered);
            let ghost lim_r = (limit - considered) as nat;
            let ghost full = list_recent_spec(self@, limit as nat);
            let ghost rest = list_recent_spec(pre.drop_last(), (lim_r - 1) as nat);
            proof {
                assert(pre.last() == self@[idx as int]);
                assert(pre.drop_last() =~= self@.subrange(0, n - considered - 1));
                assert(list_recent_spec(pre, lim_r) == (if pre.last().parse_ok {
                    seq![pre.last().summary] + rest
                } else {
                    rest
                }));
            }
            if self.records[idx].parse_ok {
                let ghost outv0 = out@.map_values(|s: IncidentSummary| s@);
                let ghost k = outv0.len() as int;
                out.push(self.records[idx].summary.clone());
                proof {
                    assert(self@[idx as int].parse_ok);
                    assert(full.skip(k) == seq![self@[idx as int].summary] + rest);
                    assert(out@.map_values(|s: IncidentSummary| s@) =~= outv0.push(
                        self@[idx as int].summary,
                    ));
                    assert(full.skip(k)[0] == self@[idx as int].summary);
                    assert(full[k] == full.skip(k)[0]);
                    assert(k + 1 <= full.len());
                    assert(out@.map_values(|s: IncidentSummary| s@) =~= full.take(k + 1)) by {
                        assert(full.take(k + 1) =~= full.take(k).push(full[k]));
                    }
                    assert(rest =~= full.skip(k).drop_first());
                    assert(full.skip(k).drop_first() =~= full.skip(k + 1));
                }
            } else {
                proof {
                    assert(!self@[idx as int].parse_ok);
                    assert(rest =~= full.skip(out@.len() as int));
                }
            }
            considered += 1;
        }
        proof {
            let full = list_recent_spec(self@, limit as nat);
            let rem = self@.subrange(0, n - considered);
            if considered == limit || rem.len() == 0 {
                assert(list_recent_spec(rem, (limit - considered) as nat).len() == 0);
            }
            assert(full.skip(out@.len() as int).len() == 0);
            assert(out@.map_values(|s: IncidentSummary| s@) =~= full);
        }
        out
    }
}

/// Freshly stored, first listed: after `store_incident` at a time no earlier
/// than every existing record, `list_recent` with any positive limit reports
/// that incident's id at position zero.
pub proof fn lemma_store_then_list(
    log_before: Seq<IncidentRecordM>,
    log_after: Seq<IncidentRecordM>,
    rec: IncidentRecordM,
    limit: nat,
)
    requires
        log_after == log_before.push(rec),
        rec.parse_ok,
        limit >= 1,
    ensures
        list_recent_spec(log_after, limit).len() >= 1,
        list_recent_spec(log_after, limit)[0] == rec.summary,
{
    assert(log_after.last() == rec);
    assert(list_recent_spec(log_after, limit) == seq![rec.summary] + list_recent_spec(
        log_after.drop_last(),
        (limit - 1) as nat,
    ));
}

} // verus!
