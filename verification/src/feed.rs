//! The threat-feed manager: bundle schema validation, signature checking over
//! the canonical bytes, offline import with a last-known-good fallback, and
//! the scheduled-refresh eligibility and timing rules.
//!
//! `FeedStore` models the threat-feed directory; the surrounding binary keeps
//! the files in step with it, performs the HTTPS fetch, and parses bundle
//! JSON into `ThreatFeedBundle`.

use vstd::prelude::*;
use vstd::string::StringExecFns;
use crate::config::{strs_view, tf_config_valid, validate_threat_feed_config, Config,
    ThreatFeedConfig};
use crate::license::LicenseState;
use crate::signing::{b64url_decode_of, verify_sig_spec};
use crate::text::{trim_spec, trim_str};
use crate::types::{parse_uuid_ok, uuid_parses, view_opt_str, Severity};

verus! {

/// The embedded base64url verifying key for threat-feed bundles, a
/// placeholder to be replaced by the production key.
pub fn feed_pubkey_b64url() -> (r: String)
    ensures
        r@ == "AAAAAAAAAAAAAAAAAAAAAAAAAAAAAAAAAAAAAAAAAAA"@,
{
    String::from_str("AAAAAAAAAAAAAAAAAAAAAAAAAAAAAAAAAAAAAAAAAAA")
}

/// The reputation lists a bundle carries.
#[derive(Debug)]
pub struct ReputationPayload {
    pub domains_block: Vec<String>,
    pub hashes_block: Vec<String>,
    pub wallet_spenders_block: Vec<String>,
}

#[verifier::ext_equal]
pub struct ReputationM {
    pub domains_block: Seq<Seq<char>>,
    pub hashes_block: Seq<Seq<char>>,
    pub wallet_spenders_block: Seq<Seq<char>>,
}

impl View for ReputationPayload {
    type V = ReputationM;

    open spec fn view(&self) -> ReputationM {
        ReputationM {
            domains_block: strs_view(self.domains_block@),
            hashes_block: strs_view(self.hashes_block@),
            wallet_spenders_block: strs_view(self.wallet_spenders_block@),
        }
    }
}

impl Clone for ReputationPayload {
    fn clone(&self) -> (r: Self)
        ensures
            r@ == self@,
    {
        let r = ReputationPayload {
            domains_block: crate::config::clone_strings(&self.domains_block),
            hashes_block: crate::config::clone_strings(&self.hashes_block),
            wallet_spenders_block: crate::config::clone_strings(&self.wallet_spenders_block),
        };
        proof {
            assert(r@ =~= self@);
        }
        r
    }
}

/// One rule entry of a bundle.
#[derive(Debug)]
pub struct FeedRule {
    pub rule_id: String,
    pub enabled: bool,
    pub severity_floor: Severity,
    pub severity_cap_learning: Severity,
    pub severity_strict: Severity,
    pub notes: Option<String>,
}

#[verifier::ext_equal]
pub struct FeedRuleM {
    pub rule_id: Seq<char>,
    pub enabled: bool,
    pub severity_floor: Severity,
    pub severity_cap_learning: Severity,
    pub severity_strict: Severity,
    pub notes: Option<Seq<char>>,
}

impl View for FeedRule {
    type V = FeedRuleM;

    open spec fn view(&self) -> FeedRuleM {
        FeedRuleM {
            rule_id: self.rule_id@,
            enabled: self.enabled,
            severity_floor: self.severity_floor,
            severity_cap_learning: self.severity_cap_learning,
            severity_strict: self.severity_strict,
            notes: view_opt_str(self.notes),
        }
    }
}

impl Clone for FeedRule {
    fn clone(&self) -> (r: Self)
        ensures
            r@ == self@,
    {
        FeedRule {
            rule_id: self.rule_id.clone(),
            enabled: self.enabled,
            severity_floor: self.severity_floor,
            severity_cap_learning: self.severity_cap_learning,
            severity_strict: self.severity_strict,
            notes: crate::engine::clone_opt_string(&self.notes),
        }
    }
}

/// A signed threat-intelligence bundle.
#[derive(Debug)]
pub struct ThreatFeedBundle {
    pub version: u64,
    pub bundle_id: String,
    pub created_at: u64,
    pub rules_version: u64,
    pub reputation: ReputationPayload,
    pub rules: Vec<FeedRule>,
}

#[verifier::ext_equal]
pub struct BundleM {
    pub version: u64,
    pub bundle_id: Seq<char>,
    pub created_at: u64,
    pub rules_version: u64,
    pub reputation: ReputationM,
    pub rules: Seq<FeedRuleM>,
}

impl View for ThreatFeedBundle {
    type V = BundleM;

    open spec fn view(&self) -> BundleM {
        BundleM {
            version: self.version,
            bundle_id: self.bundle_id@,
            created_at: self.created_at,
            rules_version: self.rules_version,
            reputation: self.reputation@,
            rules: self.rules@.map_values(|r: FeedRule| r@),
        }
    }
}

impl Clone for ThreatFeedBundle {
    fn clone(&self) -> (r: Self)
        ensures
            r@ == self@,
    {
        let mut rules: Vec<FeedRule> = Vec::new();
        let mut i: usize = 0;
        while i < self.rules.len()
            invariant
                i <= self.rules@.len(),
                rules@.map_values(|r: FeedRule| r@) =~= self.rules@.map_values(
                    |r: FeedRule| r@,
                ).take(i as int),
            decreases self.rules@.len() - i,
        {
            let ghost rv0 = rules@;
            rules.push(self.rules[i].clone());
            proof {
                let all = self.rules@.map_values(|r: FeedRule| r@);
                let rulesm = rules@.map_values(|r: FeedRule| r@);
                assert(rulesm =~= all.take(i + 1)) by {
                    assert(rv0.map_values(|r: FeedRule| r@).len() == rv0.len());
                    assert forall|j: int| 0 <= j < i + 1 implies #[trigger] rulesm[j] == all.take(
                        i + 1,
                    )[j] by {
                        assert(rulesm[j] == rules@[j]@);
                        assert(all[j] == self.rules@[j]@);
                        if j < i {
                            assert(rules@[j] == rv0[j]);
                            assert(rv0.map_values(|r: FeedRule| r@)[j] == all.take(i as int)[j]);
                        }
                    }
                }
            }
            i += 1;
        }
        proof {
            let all = self.rules@.map_values(|r: FeedRule| r@);
            assert(all.take(all.len() as int) =~= all);
        }
        let r = ThreatFeedBundle {
            version: self.version,
            bundle_id: self.bundle_id.clone(),
            created_at: self.created_at,
            rules_version: self.rules_version,
            reputation: self.reputation.clone(),
            rules,
        };
        proof {
            assert(r@ =~= self@);
        }
        r
    }
}

/// Bundle schema validity: version one, a UUID bundle id, a non-zero creation
/// time, a positive rules version, and no blank rule ids.
pub open spec fn bundle_schema_ok(b: BundleM) -> bool {
    &&& b.version == 1
    &&& uuid_parses(trim_spec(b.bundle_id))
    &&& b.created_at != 0
    &&& b.rules_version >= 1
    &&& forall|i: int| 0 <= i < b.rules.len() ==> trim_spec((#[trigger] b.rules[i]).rule_id).len() > 0
}

/// Checks the bundle schema; `Ok` exactly when `bundle_schema_ok` holds.
pub fn validate_bundle_schema(bundle: &ThreatFeedBundle) -> (r: Result<(), String>)
    ensures
        r is Ok <==> bundle_schema_ok(bundle@),
{
    if bundle.version != 1 {
        return Err(String::from_str("unsupported bundle version; expected 1"));
    }
    if !parse_uuid_ok(trim_str(bundle.bundle_id.as_str())) {
        return Err(String::from_str("bundle_id must be a UUID"));
    }
    if bundle.created_at == 0 {
        return Err(String::from_str("created_at must be > 0"));
    }
    if bundle.rules_version == 0 {
        return Err(String::from_str("rules_version must be > 0"));
    }
    let mut i: usize = 0;
    while i < bundle.rules.len()
        invariant
            i <= bundle.rules@.len(),
            forall|j: int| 0 <= j < i ==> trim_spec(bundle@.rules[j].rule_id).len() > 0,
        decreases bundle.rules@.len() - i,
    {
        let blank = crate::text::str_trim_empty(bundle.rules[i].rule_id.as_str());
        assert(bundle@.rules[i as int] == bundle.rules@[i as int]@);
        if blank {
            assert(trim_spec(bundle@.rules[i as int].rule_id).len() == 0);
            return Err(String::from_str("rule_id must not be empty"));
        }
        i += 1;
    }
    Ok(())
}

/// The feed key, decoded: `None` until a real 32-byte key is embedded.
pub open spec fn feed_key_bytes() -> Option<Seq<u8>> {
    b64url_decode_of("AAAAAAAAAAAAAAAAAAAAAAAAAAAAAAAAAAAAAAAAAAA"@)
}

/// Verifies a bundle's detached signature against the embedded feed key: the
/// signature file is normalized first (raw 64 bytes, or base64url/base64
/// text), and verification demands a well-formed 32-byte key, 64 signature
/// bytes, and a valid Ed25519 signature over the bundle bytes as presented.
pub fn verify_bundle_signature(bundle_json: &Vec<u8>, sig_bytes: &Vec<u8>) -> (r: bool)
    ensures
        r == (feed_key_bytes() matches Some(k) && verify_sig_spec(k, bundle_json@, sig_bytes@)
            is Ok),
{
    let key_text = feed_pubkey_b64url();
    let key = match crate::signing::b64url_decode(key_text.as_str()) {
        Some(k) => k,
        None => {
            return false;
        },
    };
    match crate::signing::verify_detached_signature(&key, bundle_json, sig_bytes) {
        Ok(()) => true,
        Err(_) => false,
    }
}

/// Decodes a base64url (no padding) signature text, trimmed.
pub fn decode_sig_base64url(text: &str) -> (r: Result<Vec<u8>, String>)
    ensures
        r is Ok <==> b64url_decode_of(trim_spec(text@)) is Some,
        r matches Ok(v) ==> b64url_decode_of(trim_spec(text@)) == Some(v@),
{
    match crate::signing::b64url_decode(trim_str(text)) {
        Some(v) => Ok(v),
        None => Err(String::from_str("decode signature base64url")),
    }
}

/// The refresh bookkeeping kept beside the bundle.
#[derive(Debug)]
pub struct BundleMeta {
    pub last_imported_at: Option<u64>,
    pub last_verified_at: Option<u64>,
    pub last_refresh_attempt_at: Option<u64>,
    pub last_refresh_result: Option<String>,
}

#[verifier::ext_equal]
pub struct BundleMetaM {
    pub last_imported_at: Option<u64>,
    pub last_verified_at: Option<u64>,
    pub last_refresh_attempt_at: Option<u64>,
    pub last_refresh_result: Option<Seq<char>>,
}

impl View for BundleMeta {
    type V = BundleMetaM;

    open spec fn view(&self) -> BundleMetaM {
        BundleMetaM {
            last_imported_at: self.last_imported_at,
            last_verified_at: self.last_verified_at,
            last_refresh_attempt_at: self.last_refresh_attempt_at,
            last_refresh_result: view_opt_str(self.last_refresh_result),
        }
    }
}

/// What a fetch hands back: the two response bodies and the host served.
#[derive(Debug)]
pub struct FetchedBundle {
    pub bundle_json: Vec<u8>,
    pub bundle_sig: Vec<u8>,
    pub host: String,
}

/// What `bundle_status` reports.
#[derive(Debug)]
pub struct BundleStatus {
    pub present: bool,
    pub rules_version: Option<u64>,
    pub created_at: Option<u64>,
    pub verified_at: Option<u64>,
    pub last_refresh_attempt_at: Option<u64>,
    pub last_refresh_result: Option<String>,
}

/// The outcome of a manual refresh.
#[derive(Debug)]
pub struct RefreshNowResult {
    pub attempted: bool,
    pub success: bool,
    pub reason: String,
}

/// Whether scheduled refresh may run, and at what interval.
#[derive(Debug)]
pub struct AutoRefreshEligibility {
    pub eligible: bool,
    pub interval_minutes: u64,
    pub reason: String,
}

/// The threat-feed directory as a model: the installed bundle (already
/// signature- and schema-checked), the last-known-good copy, and the
/// bookkeeping.
#[derive(Debug)]
pub struct FeedStore {
    pub current: Option<ThreatFeedBundle>,
    pub last_good: Option<ThreatFeedBundle>,
    pub meta: BundleMeta,
}

#[verifier::ext_equal]
pub struct FeedStoreM {
    pub current: Option<BundleM>,
    pub last_good: Option<BundleM>,
    pub meta: BundleMetaM,
}

impl View for FeedStore {
    type V = FeedStoreM;

    open spec fn view(&self) -> FeedStoreM {
        FeedStoreM {
            current: match &self.current {
                Some(b) => Some(b@),
                None => None,
            },
            last_good: match &self.last_good {
                Some(b) => Some(b@),
                None => None,
            },
            meta: self.meta@,
        }
    }
}

impl FeedStore {
    /// An empty threat-feed directory.
    pub fn new() -> (r: FeedStore)
        ensures
            r@.current is None,
            r@.last_good is None,
    {
        FeedStore {
            current: None,
            last_good: None,
            meta: BundleMeta {
                last_imported_at: None,
                last_verified_at: None,
                last_refresh_attempt_at: None,
                last_refresh_result: None,
            },
        }
    }

    /// Installs a bundle whose signature was checked over its canonical
    /// bytes: rejected unless the signature held and the schema validates;
    /// on success it becomes both the current and the last-known-good copy
    /// and the import/verify times are recorded.
    pub fn import(&mut self, bundle: &ThreatFeedBundle, sig_ok: bool, now_unix_s: u64) -> (r:
        Result<(), String>)
        ensures
            r is Ok <==> (sig_ok && bundle_schema_ok(bundle@)),
            r is Ok ==> final(self)@.current == Some(bundle@) && final(self)@.last_good == Some(
                bundle@,
            ) && final(self)@.meta.last_imported_at == Some(now_unix_s)
                && final(self)@.meta.last_verified_at == Some(now_unix_s),
            r is Err ==> final(self)@ == old(self)@,
    {
        if !sig_ok {
            return Err(String::from_str("signature verification failed"));
        }
        if let Err(e) = validate_bundle_schema(bundle) {
            return Err(e);
        }
        self.current = Some(bundle.clone());
        self.last_good = Some(bundle.clone());
        self.meta = BundleMeta {
            last_imported_at: Some(now_unix_s),
            last_verified_at: Some(now_unix_s),
            last_refresh_attempt_at: self.meta.last_refresh_attempt_at,
            last_refresh_result: crate::engine::clone_opt_string(&self.meta.last_refresh_result),
        };
        Ok(())
    }

    /// The bundle the agent works from: the current copy when it validates,
    /// else the last-known-good copy when that does, and nothing at all when
    /// neither does. An unvalidated bundle is never surfaced.
    pub fn load_current(&self) -> (r: Option<ThreatFeedBundle>)
        ensures
            (match self@.current {
                Some(b) => bundle_schema_ok(b) ==> (r matches Some(out) && out@ == b),
                None => true,
            }),
            (self@.current matches Some(b) && !bundle_schema_ok(b)) || self@.current is None ==> (
            match self@.last_good {
                Some(g) => bundle_schema_ok(g) ==> (r matches Some(out) && out@ == g),
                None => r is None,
            }),
            r matches Some(out) ==> Some(out@) == self@.current || Some(out@) == self@.last_good,
            r matches Some(out) ==> bundle_schema_ok(out@),
            ((match self@.current {
                Some(b) => !bundle_schema_ok(b),
                None => true,
            }) && (match self@.last_good {
                Some(g) => !bundle_schema_ok(g),
                None => true,
            })) ==> r is None,
    {
        if let Some(b) = &self.current {
            if validate_bundle_schema(b).is_ok() {
                return Some(b.clone());
            }
        }
        if let Some(g) = &self.last_good {
            if validate_bundle_schema(g).is_ok() {
                return Some(g.clone());
            }
        }
        None
    }
}

/// Import round trip: after a successful import of a bundle (which installs
/// it as the current copy), anything `load_current` may return carries the
/// imported bundle's `rules_version` and `bundle_id`.
pub proof fn lemma_import_then_load(
    store_after: FeedStore,
    b: BundleM,
    loaded: Option<ThreatFeedBundle>,
)
    requires
        bundle_schema_ok(b),
        store_after@.current == Some(b),
        call_ensures(FeedStore::load_current, (&store_after,), loaded),
    ensures
        loaded matches Some(out) && out@.rules_version == b.rules_version && out@.bundle_id
            == b.bundle_id,
{
}

/// Scheduled refresh runs only with `auto_refresh` on, an active license, and
/// a validating endpoint configuration.
pub open spec fn eligible_spec(cfg: crate::config::ConfigM, license: LicenseState) -> bool {
    cfg.threat_feed.auto_refresh && license == LicenseState::ProActive && tf_config_valid(
        cfg.threat_feed,
    )
}

/// Checks the refresh configuration; `Ok` exactly when it validates.
pub fn validate_refresh_config(cfg: &ThreatFeedConfig) -> (r: Result<(), String>)
    ensures
        r is Ok <==> tf_config_valid(cfg@),
{
    match validate_threat_feed_config(cfg) {
        None => Ok(()),
        Some(reason) => Err(reason),
    }
}

/// Whether scheduled refresh may run now, exactly as `eligible_spec` says; an
/// ineligible result always carries a non-empty reason.
pub fn auto_refresh_eligibility(cfg: &Config, license: LicenseState) -> (r: AutoRefreshEligibility)
    ensures
        r.eligible == eligible_spec(cfg@, license),
        r.interval_minutes == cfg.threat_feed.refresh_interval_minutes,
        !r.eligible ==> r.reason@.len() > 0,
{
    proof {
        reveal_strlit("Auto refresh disabled (config)");
        reveal_strlit("Auto refresh disabled (Community mode)");
        reveal_strlit("Auto refresh disabled (license not active)");
        reveal_strlit("Auto refresh disabled (invalid config)");
    }
    if !cfg.threat_feed.auto_refresh {
        return AutoRefreshEligibility {
            eligible: false,
            interval_minutes: cfg.threat_feed.refresh_interval_minutes,
            reason: String::from_str("Auto refresh disabled (config)"),
        };
    }
    match license {
        LicenseState::ProActive => {},
        LicenseState::Community => {
            return AutoRefreshEligibility {
                eligible: false,
                interval_minutes: cfg.threat_feed.refresh_interval_minutes,
                reason: String::from_str("Auto refresh disabled (Community mode)"),
            };
        },
        _ => {
            return AutoRefreshEligibility {
                eligible: false,
                interval_minutes: cfg.threat_feed.refresh_interval_minutes,
                reason: String::from_str("Auto refresh disabled (license not active)"),
            };
        },
    }
    match validate_refresh_config(&cfg.threat_feed) {
        Ok(()) => AutoRefreshEligibility {
            eligible: true,
            interval_minutes: cfg.threat_feed.refresh_interval_minutes,
            reason: String::from_str("eligible"),
        },
        Err(_) => AutoRefreshEligibility {
            eligible: false,
            interval_minutes: cfg.threat_feed.refresh_interval_minutes,
            reason: String::from_str("Auto refresh disabled (invalid config)"),
        },
    }
}

/// The interval in milliseconds, saturating.
pub open spec fn interval_ms_of(interval_minutes: u64) -> u64 {
    if interval_minutes * 60000 > u64::MAX {
        u64::MAX
    } else {
        (interval_minutes * 60000) as u64
    }
}

/// The scheduled-refresh timer.
#[derive(Debug)]
pub struct AutoRefreshScheduler {
    pub next_due_unix_ms: Option<u64>,
}

impl AutoRefreshScheduler {
    /// A scheduler with nothing due.
    pub fn new() -> (r: AutoRefreshScheduler)
        ensures
            r.next_due_unix_ms is None,
    {
        AutoRefreshScheduler { next_due_unix_ms: None }
    }

    /// One scheduler step. Ineligibility clears the timer; the first eligible
    /// tick arms it one interval ahead; a tick at or past the due time asks
    /// the caller to refresh (whatever the outcome) and re-arms it.
    pub fn tick(&mut self, eligible: bool, interval_minutes: u64, now_unix_ms: u64) -> (do_refresh:
        bool)
        ensures
            !eligible ==> final(self).next_due_unix_ms is None && !do_refresh,
            eligible && old(self).next_due_unix_ms is None ==> final(self).next_due_unix_ms
                == Some(sat_add(now_unix_ms, interval_ms_of(interval_minutes))) && !do_refresh,
            eligible && (old(self).next_due_unix_ms matches Some(d) && now_unix_ms < d)
                ==> final(self).next_due_unix_ms == old(self).next_due_unix_ms && !do_refresh,
            eligible && (old(self).next_due_unix_ms matches Some(d) && now_unix_ms >= d)
                ==> do_refresh && final(self).next_due_unix_ms == Some(
                sat_add(now_unix_ms, interval_ms_of(interval_minutes)),
            ),
    {
        if !eligible {
            self.next_due_unix_ms = None;
            return false;
        }
        let interval_ms = if interval_minutes > u64::MAX / 60000 {
            u64::MAX
        } else {
            interval_minutes * 60000
        };
        match self.next_due_unix_ms {
            None => {
                self.next_due_unix_ms = Some(now_unix_ms.saturating_add(interval_ms));
                false
            },
            Some(d) => {
                if now_unix_ms < d {
                    false
                } else {
                    self.next_due_unix_ms = Some(now_unix_ms.saturating_add(interval_ms));
                    true
                }
            },
        }
    }
}

/// Saturating addition over the millisecond clock.
pub open spec fn sat_add(a: u64, b: u64) -> u64 {
    if a + b > u64::MAX {
        u64::MAX
    } else {
        (a + b) as u64
    }
}

} // verus!
