use agent_core::config::{Config, KillSwitchConfig, Mode};
use agent_core::console::run_events_through_pipeline;
use agent_core::firewall::{enable_rules, disable_rules, rules_status, FirewallBackend, RuleSetModel, RuleSlot};
use agent_core::killswitch::{
    disable, enable_auto, enable_manual, poll_failsafe, reconcile_on_startup, set_keep_locked,
    should_auto_restore, KillSwitchMode, KillSwitchState, ReconcileAction,
};
use agent_core::protected_paths::Roots;
use agent_core::response::on_red_incident;
use agent_core::types::{Finding, Incident, Severity};

fn default_roots() -> Roots {
    Roots {
        local_appdata: "C:\\Users\\User\\AppData\\Local".to_string(),
        roaming_appdata: "C:\\Users\\User\\AppData\\Roaming".to_string(),
    }
}

#[test]
fn learning_mode_skips_killswitch_auto_response() {
    let cfg = Config {
        mode: Mode::Learning,
        killswitch: KillSwitchConfig { enabled: true, auto_trigger: true, failsafe_minutes: 10 },
        ..Config::default()
    };

    let mut inc = Incident::new(vec![Finding {
        rule_id: "R009".to_string(),
        severity: Severity::Red,
        description: "test".to_string(),
        evidence: vec![],
        timestamp_unix_ms: 1_700_000_000_000,
    }]);

    let request = on_red_incident(&cfg, &mut inc);
    assert!(request.is_none());

    assert!(inc
        .actions_taken
        .iter()
        .any(|a| a == "killswitch_skipped_learning_mode"));
    assert!(!inc
        .actions_taken
        .iter()
        .any(|a| a == "killswitch_enable_auto"));
}

#[test]
fn disabled_killswitch_never_requests_enable() {
    let cfg = Config {
        mode: Mode::Strict,
        killswitch: KillSwitchConfig { enabled: false, auto_trigger: true, failsafe_minutes: 10 },
        ..Config::default()
    };
    let mut inc = Incident::new(vec![Finding {
        rule_id: "R009".to_string(),
        severity: Severity::Red,
        description: "test".to_string(),
        evidence: vec![],
        timestamp_unix_ms: 1,
    }]);
    let request = on_red_incident(&cfg, &mut inc);
    assert!(request.is_none());
    assert!(inc.actions_taken.iter().any(|a| a == "killswitch_skipped_disabled"));
}

#[test]
fn strict_red_incident_requests_auto_enable() {
    let cfg = Config {
        mode: Mode::Strict,
        killswitch: KillSwitchConfig { enabled: true, auto_trigger: true, failsafe_minutes: 10 },
        ..Config::default()
    };
    let mut inc = Incident::new(vec![Finding {
        rule_id: "R009".to_string(),
        severity: Severity::Red,
        description: "test".to_string(),
        evidence: vec![],
        timestamp_unix_ms: 1,
    }]);
    let id = inc.incident_id.clone();
    let request = on_red_incident(&cfg, &mut inc).expect("strict red must request the kill switch");
    assert_eq!(request.incident_id, id);
    assert_eq!(request.failsafe_minutes, 10);
}

#[test]
fn learning_pipeline_withholds_enforcement_on_red_chain() {
    let cfg = Config::default();
    assert_eq!(cfg.mode, Mode::Learning);
    let base = 1_700_000_000_000u64;
    let events = agent_core::console::simulate_chain_events("C:\\Users\\User\\AppData\\Local", base);
    let handled = run_events_through_pipeline(&cfg, &default_roots(), &events);
    assert!(!handled.is_empty());
    let red = handled
        .iter()
        .find(|(inc, _)| inc.severity == Severity::Red)
        .expect("the chain must produce a red incident");
    assert!(red.0.actions_taken.iter().any(|a| a == "killswitch_skipped_learning_mode"));
    assert!(handled.iter().all(|(_, req)| req.is_none()));
}

#[test]
fn failsafe_expires_and_restores() {
    let enabled_at = 1_700_000_000_000u64;
    let off = KillSwitchState::default();
    let on = enable_auto(&off, enabled_at, &"incident-1".to_string(), 10);
    assert!(on.enabled);
    assert_eq!(on.enabled_mode, Some(KillSwitchMode::AutoRedOnly));
    assert_eq!(on.enabled_at_unix_ms, Some(enabled_at));
    assert_eq!(on.failsafe_deadline_unix_ms, Some(enabled_at + 600_000));
    assert!(!on.keep_locked);

    // Before the deadline nothing happens.
    assert!(poll_failsafe(&on, enabled_at + 599_999).is_none());
    // At the deadline the failsafe fires, carrying the incident id.
    let fired = poll_failsafe(&on, enabled_at + 600_000).expect("failsafe must fire");
    assert_eq!(fired, Some("incident-1".to_string()));

    let restored = disable(&on);
    assert!(!restored.enabled);
    assert!(restored.enabled_mode.is_none());
    assert!(restored.failsafe_deadline_unix_ms.is_none());
}

#[test]
fn keep_locked_inhibits_failsafe() {
    let off = KillSwitchState::default();
    let on = enable_auto(&off, 1_000, &"i".to_string(), 1);
    let pinned = set_keep_locked(&on, true);
    assert!(poll_failsafe(&pinned, u64::MAX).is_none());
    assert!(!should_auto_restore(&pinned, u64::MAX));
}

#[test]
fn manual_engage_never_times_out() {
    let off = KillSwitchState::default();
    let on = enable_manual(&off, 1_700_000_000_000);
    assert!(on.enabled);
    assert_eq!(on.enabled_mode, Some(KillSwitchMode::Manual));
    assert!(on.failsafe_deadline_unix_ms.is_none());
    assert!(!should_auto_restore(&on, u64::MAX));
    assert!(poll_failsafe(&on, u64::MAX).is_none());
}

#[test]
fn enable_rules_is_idempotent() {
    let empty = RuleSetModel { outbound: RuleSlot::Absent, inbound: RuleSlot::Absent };
    let once = enable_rules(empty).expect("enable on empty rule set succeeds");
    let twice = enable_rules(once).expect("second enable succeeds");
    assert_eq!(once, twice);
    let st = rules_status(twice, FirewallBackend::Com);
    assert!(st.outbound_ok && st.inbound_ok);
}

#[test]
fn foreign_rule_is_never_touched() {
    let with_foreign = RuleSetModel { outbound: RuleSlot::Foreign, inbound: RuleSlot::Absent };
    assert!(enable_rules(with_foreign).is_err());
    assert!(disable_rules(with_foreign).is_err());
    let st = rules_status(with_foreign, FirewallBackend::NetshFallback);
    assert!(!st.outbound_ok);
}

#[test]
fn disable_removes_only_our_rules() {
    let empty = RuleSetModel { outbound: RuleSlot::Absent, inbound: RuleSlot::Absent };
    let on = enable_rules(empty).expect("enable on empty rule set succeeds");
    let off = disable_rules(on).expect("disable of our own rules succeeds");
    assert_eq!(off.outbound, RuleSlot::Absent);
    assert_eq!(off.inbound, RuleSlot::Absent);
}

#[test]
fn reconcile_table_resolves_every_divergence_safely() {
    let now = 1_700_000_000_000u64;
    let cfg_on = Config::default();
    let mut cfg_off = Config::default();
    cfg_off.killswitch.enabled = false;

    let off = KillSwitchState::default();
    let expired = enable_auto(&off, now - 700_000, &"i".to_string(), 10);
    let manual = enable_manual(&off, now - 700_000);

    assert_eq!(reconcile_on_startup(&cfg_off, &off, true, now), ReconcileAction::ConfigDisabledCleanup);
    assert_eq!(reconcile_on_startup(&cfg_on, &off, false, now), ReconcileAction::Nothing);
    assert_eq!(reconcile_on_startup(&cfg_on, &off, true, now), ReconcileAction::CleanupDisable);
    assert_eq!(reconcile_on_startup(&cfg_on, &expired, true, now), ReconcileAction::FailsafeDisable);
    assert_eq!(reconcile_on_startup(&cfg_on, &manual, true, now), ReconcileAction::Nothing);
    assert_eq!(reconcile_on_startup(&cfg_on, &manual, false, now), ReconcileAction::Reapply);
}
