//! The response engine: policy dispatch from an incident's severity to the
//! actions taken.
//!
//! Only a red incident can engage the kill switch, and only outside learning
//! mode, with the switch enabled and auto-trigger on. The functions here
//! record the decision on the incident; the surrounding binary performs the
//! engage and reports its outcome back, then persists the incident.

use vstd::prelude::*;
use vstd::string::StringExecFns;
use crate::config::{Config, ConfigM, Mode};
use crate::types::{max_severity_spec, Incident, Severity};

verus! {

/// A request to engage the kill switch automatically for an incident.
#[derive(Debug)]
pub struct EnableAutoRequest {
    pub incident_id: String,
    pub failsafe_minutes: u64,
}

/// The actions a red incident records before any kill-switch outcome: the
/// stubbed remediation notes, then the skip marker of whichever gate closed.
pub open spec fn red_action_tail(cfg: ConfigM) -> Seq<Seq<char>> {
    let base = seq!["process_kill_skipped_no_pid"@, "quarantine_skipped_no_path"@];
    if !cfg.killswitch.enabled {
        base.push("killswitch_skipped_disabled"@)
    } else if cfg.mode == Mode::Learning {
        base.push("killswitch_skipped_learning_mode"@)
    } else if cfg.killswitch.auto_trigger {
        base
    } else {
        base.push("killswitch_skipped_auto_trigger_disabled"@)
    }
}

/// A red incident asks for the automatic kill switch exactly when the switch
/// is enabled, the mode is strict, and auto-trigger is on.
pub open spec fn red_requests_enable(cfg: ConfigM) -> bool {
    cfg.killswitch.enabled && cfg.mode == Mode::Strict && cfg.killswitch.auto_trigger
}

/// The response to a red incident: records the remediation notes and either
/// returns the request to engage the kill switch or records why it refrained.
/// In learning mode, or with the switch disabled by configuration, no request
/// is ever returned.
pub fn on_red_incident(cfg: &Config, incident: &mut Incident) -> (r: Option<EnableAutoRequest>)
    ensures
        final(incident)@.incident_id == old(incident)@.incident_id,
        final(incident)@.severity == old(incident)@.severity,
        final(incident)@.findings == old(incident)@.findings,
        final(incident)@.created_at_unix_ms == old(incident)@.created_at_unix_ms,
        final(incident)@.actions_taken == old(incident)@.actions_taken + red_action_tail(cfg@),
        r is Some <==> red_requests_enable(cfg@),
        r matches Some(q) ==> q.incident_id@ == old(incident)@.incident_id
            && q.failsafe_minutes == cfg.killswitch.failsafe_minutes,
        cfg.mode == Mode::Learning ==> r is None,
        !cfg.killswitch.enabled ==> r is None,
{
    let ghost a0 = incident@.actions_taken;
    incident.actions_taken.push(String::from_str("process_kill_skipped_no_pid"));
    incident.actions_taken.push(String::from_str("quarantine_skipped_no_path"));
    proof {
        assert(incident@.actions_taken =~= a0 + seq![
            "process_kill_skipped_no_pid"@,
            "quarantine_skipped_no_path"@,
        ]);
    }
    if !cfg.killswitch.enabled {
        incident.actions_taken.push(String::from_str("killswitch_skipped_disabled"));
        proof {
            assert(incident@.actions_taken =~= a0 + red_action_tail(cfg@));
        }
        return None;
    }
    if cfg.mode == Mode::Learning {
        incident.actions_taken.push(String::from_str("killswitch_skipped_learning_mode"));
        proof {
            assert(incident@.actions_taken =~= a0 + red_action_tail(cfg@));
        }
        return None;
    }
    if cfg.killswitch.auto_trigger {
        proof {
            assert(incident@.actions_taken =~= a0 + red_action_tail(cfg@));
        }
        Some(
            EnableAutoRequest {
                incident_id: incident.incident_id.clone(),
                failsafe_minutes: cfg.killswitch.failsafe_minutes,
            },
        )
    } else {
        incident.actions_taken.push(String::from_str("killswitch_skipped_auto_trigger_disabled"));
        proof {
            assert(incident@.actions_taken =~= a0 + red_action_tail(cfg@));
        }
        None
    }
}

/// Records on the incident how the requested kill-switch engage went.
pub fn record_killswitch_outcome(incident: &mut Incident, engaged: bool)
    ensures
        final(incident)@.incident_id == old(incident)@.incident_id,
        final(incident)@.severity == old(incident)@.severity,
        final(incident)@.findings == old(incident)@.findings,
        final(incident)@.created_at_unix_ms == old(incident)@.created_at_unix_ms,
        engaged ==> final(incident)@.actions_taken == old(incident)@.actions_taken + seq![
            "killswitch_enable_auto"@,
            "killswitch_failsafe_deadline_set"@,
        ],
        !engaged ==> final(incident)@.actions_taken == old(incident)@.actions_taken.push(
            "killswitch_enable_auto_failed"@,
        ),
{
    let ghost a0 = incident@.actions_taken;
    if engaged {
        incident.actions_taken.push(String::from_str("killswitch_enable_auto"));
        incident.actions_taken.push(String::from_str("killswitch_failsafe_deadline_set"));
        proof {
            assert(incident@.actions_taken =~= a0 + seq![
                "killswitch_enable_auto"@,
                "killswitch_failsafe_deadline_set"@,
            ]);
        }
    } else {
        incident.actions_taken.push(String::from_str("killswitch_enable_auto_failed"));
        proof {
            assert(incident@.actions_taken =~= a0.push("killswitch_enable_auto_failed"@));
        }
    }
}

/// Handles one incident: fixes its severity to the maximum of its findings'
/// severities, and for a red incident decides the kill-switch response. The
/// caller persists the incident afterwards, whatever was decided.
pub fn handle_incident(cfg: &Config, incident: &mut Incident) -> (r: Option<EnableAutoRequest>)
    ensures
        final(incident)@.incident_id == old(incident)@.incident_id,
        final(incident)@.findings == old(incident)@.findings,
        final(incident)@.created_at_unix_ms == old(incident)@.created_at_unix_ms,
        final(incident)@.severity == max_severity_spec(old(incident)@.findings),
        final(incident)@.severity == Severity::Red ==> final(incident)@.actions_taken == old(
            incident,
        )@.actions_taken + red_action_tail(cfg@),
        final(incident)@.severity != Severity::Red ==> final(incident)@.actions_taken == old(
            incident,
        )@.actions_taken,
        r is Some <==> (max_severity_spec(old(incident)@.findings) == Severity::Red
            && red_requests_enable(cfg@)),
        r matches Some(q) ==> q.incident_id@ == old(incident)@.incident_id
            && q.failsafe_minutes == cfg.killswitch.failsafe_minutes,
        cfg.mode == Mode::Learning ==> r is None,
        !cfg.killswitch.enabled ==> r is None,
{
    let sev = crate::types::max_severity(&incident.findings);
    incident.severity = sev;
    if sev == Severity::Red {
        on_red_incident(cfg, incident)
    } else {
        None
    }
}

} // verus!
