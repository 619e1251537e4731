//! The firewall actuator's reconciliation model.
//!
//! The host firewall is external; the surrounding binary observes the two
//! rules the agent owns (one inbound, one outbound, identified by name and by
//! the fixed group tag) as a `RuleSetModel`, computes the next rule set with
//! the functions here, and applies the difference through the backend. A rule
//! whose name matches but whose group tag does not is `Foreign`: it is never
//! modified or deleted, and both enabling and disabling refuse it with a
//! name-collision error for the operator to act on.
//!
//! Backend selection is the binary's concern: the firewall policy object is
//! the primary backend, with the command-line tool as the fallback taken only
//! when the primary is unavailable (never on a permission error). A build
//! without the platform's policy-object bindings drives the command-line
//! backend throughout and reports it in the status.

use vstd::prelude::*;

verus! {

/// Which backend performed a firewall operation.
#[derive(Debug, Clone, Copy, PartialEq, Eq, Structural)]
pub enum FirewallBackend {
    /// The platform's firewall policy object, the primary backend.
    Com,
    /// The command-line firewall tool, the fallback.
    NetshFallback,
}

#[derive(Debug, Clone, Copy, PartialEq, Eq, Structural)]
pub struct FirewallRuleStatus {
    pub outbound_ok: bool,
    pub inbound_ok: bool,
    pub backend: FirewallBackend,
}

/// The properties the agent sets on a rule it owns.
#[derive(Debug, Clone, Copy, PartialEq, Eq, Structural)]
pub struct RuleProps {
    pub inbound: bool,
    pub enabled: bool,
    pub block_action: bool,
    pub protocol_any: bool,
    pub addresses_any: bool,
    pub all_profiles: bool,
}

/// One named rule slot as observed in the firewall: absent, ours (in the
/// agent's group, with the observed properties), or a foreign rule of the
/// same name outside the group.
#[derive(Debug, Clone, Copy, PartialEq, Eq, Structural)]
pub enum RuleSlot {
    Absent,
    Ours(RuleProps),
    Foreign,
}

/// The observed state of the two rules the agent manages.
#[derive(Debug, Clone, Copy, PartialEq, Eq, Structural)]
pub struct RuleSetModel {
    pub outbound: RuleSlot,
    pub inbound: RuleSlot,
}

#[derive(Debug, Clone, Copy, PartialEq, Eq, Structural)]
pub enum FirewallError {
    /// A rule with our name exists outside our group; it is never touched.
    NameCollision,
}

/// The block-everything properties the kill switch asserts.
pub open spec fn desired_props(inbound: bool) -> RuleProps {
    RuleProps {
        inbound,
        enabled: true,
        block_action: true,
        protocol_any: true,
        addresses_any: true,
        all_profiles: true,
    }
}

pub fn desired_rule_props(inbound: bool) -> (r: RuleProps)
    ensures
        r == desired_props(inbound),
{
    RuleProps {
        inbound,
        enabled: true,
        block_action: true,
        protocol_any: true,
        addresses_any: true,
        all_profiles: true,
    }
}

/// Asserting the kill switch: fails exactly when either slot holds a foreign
/// rule; otherwise both slots end up ours with the block-everything
/// properties, whether they were absent or already ours.
pub fn enable_rules(m: RuleSetModel) -> (r: Result<RuleSetModel, FirewallError>)
    ensures
        (m.outbound is Foreign || m.inbound is Foreign) <==> r == Err::<
            RuleSetModel,
            FirewallError,
        >(FirewallError::NameCollision),
        !(m.outbound is Foreign || m.inbound is Foreign) ==> r == Ok::<
            RuleSetModel,
            FirewallError,
        >(
            RuleSetModel {
                outbound: RuleSlot::Ours(desired_props(false)),
                inbound: RuleSlot::Ours(desired_props(true)),
            },
        ),
{
    if matches!(m.outbound, RuleSlot::Foreign) || matches!(m.inbound, RuleSlot::Foreign) {
        Err(FirewallError::NameCollision)
    } else {
        Ok(
            RuleSetModel {
                outbound: RuleSlot::Ours(desired_rule_props(false)),
                inbound: RuleSlot::Ours(desired_rule_props(true)),
            },
        )
    }
}

/// Retracting the kill switch: fails exactly when either slot holds a foreign
/// same-named rule (which is never deleted or modified); otherwise our rules
/// are removed and both slots end up absent.
pub fn disable_rules(m: RuleSetModel) -> (r: Result<RuleSetModel, FirewallError>)
    ensures
        (m.outbound is Foreign || m.inbound is Foreign) <==> r == Err::<
            RuleSetModel,
            FirewallError,
        >(FirewallError::NameCollision),
        !(m.outbound is Foreign || m.inbound is Foreign) ==> r == Ok::<
            RuleSetModel,
            FirewallError,
        >(RuleSetModel { outbound: RuleSlot::Absent, inbound: RuleSlot::Absent }),
{
    if matches!(m.outbound, RuleSlot::Foreign) || matches!(m.inbound, RuleSlot::Foreign) {
        Err(FirewallError::NameCollision)
    } else {
        Ok(RuleSetModel { outbound: RuleSlot::Absent, inbound: RuleSlot::Absent })
    }
}

/// Whether each of our two rules is present and ours; a foreign rule of the
/// same name does not count.
pub fn rules_status(m: RuleSetModel, backend: FirewallBackend) -> (r: FirewallRuleStatus)
    ensures
        r.outbound_ok == m.outbound is Ours,
        r.inbound_ok == m.inbound is Ours,
        r.backend == backend,
{
    FirewallRuleStatus {
        outbound_ok: matches!(m.outbound, RuleSlot::Ours(_)),
        inbound_ok: matches!(m.inbound, RuleSlot::Ours(_)),
        backend,
    }
}

/// Enabling is idempotent: a second `enable_rules` on the rule set the first
/// one produced succeeds and leaves the rule set unchanged, with the same
/// properties and the same group ownership.
pub proof fn lemma_enable_rules_idempotent(m: RuleSetModel, m1: RuleSetModel)
    requires
        call_ensures(enable_rules, (m,), Ok::<RuleSetModel, FirewallError>(m1)),
    ensures
        forall|r2: Result<RuleSetModel, FirewallError>|
            call_ensures(enable_rules, (m1,), r2) ==> r2 == Ok::<RuleSetModel, FirewallError>(m1),
{
}

} // verus!
