//! The kill-switch state machine: persisted mode and deadline, the failsafe
//! that releases an automatically engaged block, and startup reconciliation
//! between the persisted state and the observed firewall rules.
//!
//! The functions here are pure transitions; the surrounding binary loads and
//! saves the persisted state and drives the firewall backend, writing state
//! only after the corresponding rule change succeeded.

use vstd::prelude::*;
use vstd::string::StringExecFns;
use crate::config::Config;
use crate::firewall::FirewallBackend;
use crate::types::view_opt_str;

verus! {

/// The firewall group tag that marks the rules as ours.
pub fn firewall_rule_group() -> (r: String)
    ensures
        r@ == "AI_DEFENDER_KILLSWITCH"@,
{
    String::from_str("AI_DEFENDER_KILLSWITCH")
}

#[derive(Debug, Clone, Copy, PartialEq, Eq, Structural)]
pub enum KillSwitchMode {
    Manual,
    AutoRedOnly,
}

/// The persisted kill-switch state.
#[derive(Debug)]
pub struct KillSwitchState {
    pub enabled: bool,
    pub keep_locked: bool,
    pub enabled_mode: Option<KillSwitchMode>,
    pub enabled_at_unix_ms: Option<u64>,
    pub failsafe_deadline_unix_ms: Option<u64>,
    pub last_incident_id: Option<String>,
}

#[verifier::ext_equal]
pub struct KillSwitchStateM {
    pub enabled: bool,
    pub keep_locked: bool,
    pub enabled_mode: Option<KillSwitchMode>,
    pub enabled_at_unix_ms: Option<u64>,
    pub failsafe_deadline_unix_ms: Option<u64>,
    pub last_incident_id: Option<Seq<char>>,
}

impl View for KillSwitchState {
    type V = KillSwitchStateM;

    open spec fn view(&self) -> KillSwitchStateM {
        KillSwitchStateM {
            enabled: self.enabled,
            keep_locked: self.keep_locked,
            enabled_mode: self.enabled_mode,
            enabled_at_unix_ms: self.enabled_at_unix_ms,
            failsafe_deadline_unix_ms: self.failsafe_deadline_unix_ms,
            last_incident_id: view_opt_str(self.last_incident_id),
        }
    }
}

impl Clone for KillSwitchState {
    fn clone(&self) -> (r: Self)
        ensures
            r@ == self@,
    {
        KillSwitchState {
            enabled: self.enabled,
            keep_locked: self.keep_locked,
            enabled_mode: self.enabled_mode,
            enabled_at_unix_ms: self.enabled_at_unix_ms,
            failsafe_deadline_unix_ms: self.failsafe_deadline_unix_ms,
            last_incident_id: crate::engine::clone_opt_string(&self.last_incident_id),
        }
    }
}

impl Default for KillSwitchState {
    /// The off state: the switch disengaged and nothing remembered.
    fn default() -> (r: KillSwitchState)
        ensures
            r@ =~= off_state(false),
    {
        KillSwitchState {
            enabled: false,
            keep_locked: false,
            enabled_mode: None,
            enabled_at_unix_ms: None,
            failsafe_deadline_unix_ms: None,
            last_incident_id: None,
        }
    }
}

/// The state after a disable: everything cleared but `keep_locked`, which
/// only `set_keep_locked` changes.
pub open spec fn off_state(keep_locked: bool) -> KillSwitchStateM {
    KillSwitchStateM {
        enabled: false,
        keep_locked,
        enabled_mode: None,
        enabled_at_unix_ms: None,
        failsafe_deadline_unix_ms: None,
        last_incident_id: None,
    }
}

/// The consistency of a persisted state: an engaged switch carries its mode
/// and start time; an automatically engaged one carries a deadline beyond the
/// start; a manually engaged one never carries a deadline.
pub open spec fn state_inv(s: KillSwitchStateM) -> bool {
    &&& (s.enabled ==> s.enabled_mode is Some && s.enabled_at_unix_ms is Some)
    &&& (s.enabled && s.enabled_mode == Some(KillSwitchMode::AutoRedOnly)
        ==> s.failsafe_deadline_unix_ms is Some && s.failsafe_deadline_unix_ms->Some_0
        > s.enabled_at_unix_ms->Some_0)
    &&& (s.enabled_mode == Some(KillSwitchMode::Manual) ==> s.failsafe_deadline_unix_ms is None)
}

/// The auto-engaged switch restores itself once its deadline has passed,
/// unless the operator pinned it with `keep_locked`; a manual switch never
/// auto-restores.
pub open spec fn should_auto_restore_spec(s: KillSwitchStateM, now: u64) -> bool {
    &&& s.enabled
    &&& !s.keep_locked
    &&& s.enabled_mode == Some(KillSwitchMode::AutoRedOnly)
    &&& s.failsafe_deadline_unix_ms matches Some(d) && now >= d
}

pub fn should_auto_restore(state: &KillSwitchState, now_unix_ms: u64) -> (r: bool)
    ensures
        r == should_auto_restore_spec(state@, now_unix_ms),
{
    if !state.enabled {
        return false;
    }
    if state.keep_locked {
        return false;
    }
    match state.enabled_mode {
        Some(KillSwitchMode::AutoRedOnly) => {},
        _ => {
            return false;
        },
    }
    match state.failsafe_deadline_unix_ms {
        Some(d) => now_unix_ms >= d,
        None => false,
    }
}

/// The state after a manual engage: mode manual, no deadline, no incident;
/// `keep_locked` is untouched.
pub open spec fn enable_manual_spec(s: KillSwitchStateM, now: u64) -> KillSwitchStateM {
    KillSwitchStateM {
        enabled: true,
        keep_locked: s.keep_locked,
        enabled_mode: Some(KillSwitchMode::Manual),
        enabled_at_unix_ms: Some(now),
        failsafe_deadline_unix_ms: None,
        last_incident_id: None,
    }
}

/// The failsafe deadline: `now + minutes·60_000`, saturating.
pub open spec fn deadline_of(now: u64, failsafe_minutes: u64) -> u64 {
    let ms = if failsafe_minutes * 60000 > u64::MAX {
        u64::MAX
    } else {
        (failsafe_minutes * 60000) as u64
    };
    if now + ms > u64::MAX {
        u64::MAX
    } else {
        (now + ms) as u64
    }
}

/// The state after an automatic engage: mode auto, deadline set from the
/// failsafe minutes, the triggering incident remembered, and `keep_locked`
/// cleared so that the failsafe can restore by default.
pub open spec fn enable_auto_spec(
    s: KillSwitchStateM,
    now: u64,
    incident_id: Seq<char>,
    failsafe_minutes: u64,
) -> KillSwitchStateM {
    KillSwitchStateM {
        enabled: true,
        keep_locked: false,
        enabled_mode: Some(KillSwitchMode::AutoRedOnly),
        enabled_at_unix_ms: Some(now),
        failsafe_deadline_unix_ms: Some(deadline_of(now, failsafe_minutes)),
        last_incident_id: Some(incident_id),
    }
}

/// The manual-engage transition. The caller asserts the firewall rules first
/// and persists the result only on success.
pub fn enable_manual(state: &KillSwitchState, now_unix_ms: u64) -> (r: KillSwitchState)
    ensures
        r@ =~= enable_manual_spec(state@, now_unix_ms),
{
    KillSwitchState {
        enabled: true,
        keep_locked: state.keep_locked,
        enabled_mode: Some(KillSwitchMode::Manual),
        enabled_at_unix_ms: Some(now_unix_ms),
        failsafe_deadline_unix_ms: None,
        last_incident_id: None,
    }
}

/// The automatic-engage transition. The caller asserts the firewall rules
/// first and persists the result only on success.
pub fn enable_auto(
    state: &KillSwitchState,
    now_unix_ms: u64,
    incident_id: &String,
    failsafe_minutes: u64,
) -> (r: KillSwitchState)
    ensures
        r@ =~= enable_auto_spec(state@, now_unix_ms, incident_id@, failsafe_minutes),
{
    let ms = if failsafe_minutes > u64::MAX / 60000 {
        u64::MAX
    } else {
        failsafe_minutes * 60000
    };
    KillSwitchState {
        enabled: true,
        keep_locked: false,
        enabled_mode: Some(KillSwitchMode::AutoRedOnly),
        enabled_at_unix_ms: Some(now_unix_ms),
        failsafe_deadline_unix_ms: Some(now_unix_ms.saturating_add(ms)),
        last_incident_id: Some(incident_id.clone()),
    }
}

/// The reason-coded disable transition: rules are retracted by the caller
/// first, then the state is cleared; `keep_locked` survives. The reason and
/// the incident id do not enter the state: they are audit information the
/// caller records alongside the rule change.
pub fn disable_with_reason(
    state: &KillSwitchState,
    reason: &str,
    incident_id: Option<&str>,
) -> (r: KillSwitchState)
    ensures
        r@ =~= off_state(state@.keep_locked),
{
    let _ = (reason, incident_id);
    KillSwitchState {
        enabled: false,
        keep_locked: state.keep_locked,
        enabled_mode: None,
        enabled_at_unix_ms: None,
        failsafe_deadline_unix_ms: None,
        last_incident_id: None,
    }
}

/// The operator's plain disable: a `manual_restore`.
pub fn disable(state: &KillSwitchState) -> (r: KillSwitchState)
    ensures
        r@ =~= off_state(state@.keep_locked),
{
    disable_with_reason(state, "manual_restore", None)
}

/// Where the kill-switch state lives under the base directory, for operator
/// documentation.
pub fn state_file_path_for_docs(base: &str) -> (r: String)
    ensures
        r@ == base@ + "\\"@ + "killswitch-state.toml"@,
{
    crate::paths::killswitch_state_path(base)
}

/// Updates only the `keep_locked` field.
pub fn set_keep_locked(state: &KillSwitchState, keep_locked: bool) -> (r: KillSwitchState)
    ensures
        r@ =~= (KillSwitchStateM { keep_locked, ..state@ }),
{
    KillSwitchState {
        enabled: state.enabled,
        keep_locked,
        enabled_mode: state.enabled_mode,
        enabled_at_unix_ms: state.enabled_at_unix_ms,
        failsafe_deadline_unix_ms: state.failsafe_deadline_unix_ms,
        last_incident_id: crate::engine::clone_opt_string(&state.last_incident_id),
    }
}

/// What the agent reports about the kill switch.
#[derive(Debug)]
pub struct KillSwitchStatus {
    pub enabled: bool,
    pub rules_present: bool,
    pub firewall_backend: Option<FirewallBackend>,
    pub keep_locked: bool,
    pub enabled_mode: Option<KillSwitchMode>,
    pub enabled_at_unix_ms: Option<u64>,
    pub failsafe_deadline_unix_ms: Option<u64>,
    pub last_incident_id: Option<String>,
}

/// The status view over a loaded state and the observed rules.
pub fn status(
    state: &KillSwitchState,
    rules_present: bool,
    backend: Option<FirewallBackend>,
) -> (r: KillSwitchStatus)
    ensures
        r.enabled == state@.enabled,
        r.rules_present == rules_present,
        r.firewall_backend == backend,
        r.keep_locked == state@.keep_locked,
        r.enabled_mode == state@.enabled_mode,
        r.enabled_at_unix_ms == state@.enabled_at_unix_ms,
        r.failsafe_deadline_unix_ms == state@.failsafe_deadline_unix_ms,
        view_opt_str(r.last_incident_id) == state@.last_incident_id,
{
    KillSwitchStatus {
        enabled: state.enabled,
        rules_present,
        firewall_backend: backend,
        keep_locked: state.keep_locked,
        enabled_mode: state.enabled_mode,
        enabled_at_unix_ms: state.enabled_at_unix_ms,
        failsafe_deadline_unix_ms: state.failsafe_deadline_unix_ms,
        last_incident_id: crate::engine::clone_opt_string(&state.last_incident_id),
    }
}

/// What startup reconciliation decides to do, given the persisted state and
/// the observed rules.
#[derive(Debug, Clone, Copy, PartialEq, Eq, Structural)]
pub enum ReconcileAction {
    /// State and rules agree; nothing to do.
    Nothing,
    /// The kill switch is disabled by configuration: remove any rules and
    /// clear the state (reason `config_disabled_cleanup`).
    ConfigDisabledCleanup,
    /// State says off but rules exist: remove them (reason `startup_cleanup`).
    CleanupDisable,
    /// An automatic engage whose failsafe has expired: restore the network
    /// (reason `failsafe_startup`, with the remembered incident id).
    FailsafeDisable,
    /// State says on but the rules are missing: re-assert them.
    Reapply,
}

/// The reconciliation decision, exactly as the startup table prescribes.
/// Every divergence resolves in the safe direction: rules without state are
/// removed, an expired failsafe restores the network, and missing rules under
/// a live state are re-applied.
pub fn reconcile_on_startup(
    cfg: &Config,
    state: &KillSwitchState,
    rules_present: bool,
    now_unix_ms: u64,
) -> (r: ReconcileAction)
    ensures
        !cfg.killswitch.enabled ==> r == ReconcileAction::ConfigDisabledCleanup,
        cfg.killswitch.enabled && !state@.enabled && rules_present ==> r
            == ReconcileAction::CleanupDisable,
        cfg.killswitch.enabled && !state@.enabled && !rules_present ==> r
            == ReconcileAction::Nothing,
        cfg.killswitch.enabled && state@.enabled && should_auto_restore_spec(state@, now_unix_ms)
            ==> r == ReconcileAction::FailsafeDisable,
        cfg.killswitch.enabled && state@.enabled && !should_auto_restore_spec(
            state@,
            now_unix_ms,
        ) && rules_present ==> r == ReconcileAction::Nothing,
        cfg.killswitch.enabled && state@.enabled && !should_auto_restore_spec(
            state@,
            now_unix_ms,
        ) && !rules_present ==> r == ReconcileAction::Reapply,
{
    if !cfg.killswitch.enabled {
        return ReconcileAction::ConfigDisabledCleanup;
    }
    if !state.enabled {
        if rules_present {
            return ReconcileAction::CleanupDisable;
        }
        return ReconcileAction::Nothing;
    }
    if should_auto_restore(state, now_unix_ms) {
        return ReconcileAction::FailsafeDisable;
    }
    if !rules_present {
        return ReconcileAction::Reapply;
    }
    ReconcileAction::Nothing
}

/// The failsafe poll: when the loaded state says an automatic engage has
/// expired (and is not pinned), the caller must disable with reason
/// `failsafe_expired` and the remembered incident id; otherwise nothing.
pub fn poll_failsafe(state: &KillSwitchState, now_unix_ms: u64) -> (r: Option<Option<String>>)
    ensures
        r is Some <==> should_auto_restore_spec(state@, now_unix_ms),
        r matches Some(id) ==> view_opt_str(id) == state@.last_incident_id,
{
    if should_auto_restore(state, now_unix_ms) {
        Some(crate::engine::clone_opt_string(&state.last_incident_id))
    } else {
        None
    }
}

/// An automatic engage is released by the first poll at or past its deadline:
/// after `enable_auto`, any poll at a time `now` at or past the deadline (with
/// no intervening `set_keep_locked`) decides the `failsafe_expired` disable,
/// carrying the incident that caused the engage; and the state the disable
/// writes is off.
pub proof fn lemma_failsafe_expires(
    s: KillSwitchStateM,
    enabled_at: u64,
    incident_id: Seq<char>,
    failsafe_minutes: u64,
    now: u64,
)
    requires
        now >= deadline_of(enabled_at, failsafe_minutes),
    ensures
        ({
            let s1 = enable_auto_spec(s, enabled_at, incident_id, failsafe_minutes);
            &&& should_auto_restore_spec(s1, now)
            &&& s1.last_incident_id == Some(incident_id)
        }),
{
}

/// A manual engage never times out: after `enable_manual`, no poll at any
/// time ever auto-restores, so ticks leave the state engaged.
pub proof fn lemma_manual_never_restores(s: KillSwitchStateM, enabled_at: u64)
    ensures
        forall|now: u64| !should_auto_restore_spec(enable_manual_spec(s, enabled_at), now),
{
}

/// The transitions preserve the state invariant. An automatic engage needs a
/// positive failsafe and headroom in the clock for its deadline to lie
/// strictly beyond the start time.
pub proof fn lemma_transitions_preserve_inv(
    s: KillSwitchStateM,
    now: u64,
    incident_id: Seq<char>,
    failsafe_minutes: u64,
    keep_locked: bool,
)
    ensures
        state_inv(enable_manual_spec(s, now)),
        state_inv(off_state(keep_locked)),
        failsafe_minutes >= 1 && now + failsafe_minutes * 60000 <= u64::MAX ==> state_inv(
            enable_auto_spec(s, now, incident_id, failsafe_minutes),
        ),
        state_inv(s) ==> state_inv((KillSwitchStateM { keep_locked, ..s })),
{
}

} // verus!
