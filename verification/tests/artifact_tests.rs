use agent_core::feed::{
    auto_refresh_eligibility, decode_sig_base64url, validate_bundle_schema, AutoRefreshScheduler,
    FeedRule, FeedStore, ReputationPayload, ThreatFeedBundle,
};
use agent_core::license::{
    validate_fields, LicensePayloadV1, LicenseState, LicenseStore,
};
use agent_core::signing::{normalize_sig_bytes, verify_detached_signature, SigError};
use ed25519_dalek::{Signer, SigningKey};

fn payload(expires_at: Option<u64>) -> LicensePayloadV1 {
    LicensePayloadV1 {
        version: 1,
        license_id: "00000000-0000-0000-0000-000000000000".to_string(),
        user_id: "u".to_string(),
        plan: "pro".to_string(),
        seats: 2,
        issued_at: 1,
        expires_at,
        features: vec![],
        issuer: Some("x".to_string()),
    }
}

#[test]
fn signature_verification_rejects_modified_payload() {
    let sk = SigningKey::from_bytes(&[7u8; 32]);
    let vk = sk.verifying_key();

    let payload = br#"{"version":1,"license_id":"00000000-0000-0000-0000-000000000000","user_id":"u","plan":"pro","seats":2,"issued_at":1700000000,"expires_at":null,"features":[],"issuer":"x"}"#;
    let sig = sk.sign(payload).to_bytes();

    let mut tampered = payload.to_vec();
    tampered[10] ^= 1;

    let key = vk.to_bytes().to_vec();
    assert!(verify_detached_signature(&key, &payload.to_vec(), &sig.to_vec()).is_ok());
    assert!(verify_detached_signature(&key, &tampered, &sig.to_vec()).is_err());
}

#[test]
fn validate_fields_marks_expired() {
    let p = payload(Some(1));
    let (st, _) = validate_fields(&p, 1_700_000_000);
    assert_eq!(st, LicenseState::ProExpired);
}

#[test]
fn validate_fields_rejects_each_schema_violation() {
    let now = 1_700_000_000u64;
    let ok = payload(None);
    assert_eq!(validate_fields(&ok, now).0, LicenseState::ProActive);

    let mut bad = payload(None);
    bad.version = 2;
    assert_eq!(validate_fields(&bad, now).0, LicenseState::ProInvalid);

    let mut bad = payload(None);
    bad.license_id = "not-a-uuid".to_string();
    assert_eq!(validate_fields(&bad, now).0, LicenseState::ProInvalid);

    let mut bad = payload(None);
    bad.plan = "free".to_string();
    assert_eq!(validate_fields(&bad, now).0, LicenseState::ProInvalid);

    let mut bad = payload(None);
    bad.seats = 0;
    assert_eq!(validate_fields(&bad, now).0, LicenseState::ProInvalid);

    let mut bad = payload(None);
    bad.user_id = "   ".to_string();
    assert_eq!(validate_fields(&bad, now).0, LicenseState::ProInvalid);

    let mut bad = payload(None);
    bad.issued_at = 0;
    assert_eq!(validate_fields(&bad, now).0, LicenseState::ProInvalid);
}

#[test]
fn license_install_activate_deactivate_round_trip() {
    let now = 1_700_000_000u64;
    let mut store = LicenseStore::new();

    let st = store.status(now);
    assert_eq!(st.state, LicenseState::Community);

    let installed = store.install_license(&payload(None), true, now).expect("install succeeds");
    assert_eq!(installed.state, LicenseState::ProInvalid);
    assert!(installed.reason.is_some());

    let activated = store.activate(now + 1).expect("activate succeeds");
    assert_eq!(activated.state, LicenseState::ProActive);
    assert_eq!(activated.last_verified_at_unix_seconds, Some(now + 1));

    let after = store.status(now + 2);
    assert_eq!(after.state, LicenseState::ProActive);
    assert_eq!(after.plan.as_deref(), Some("pro"));
    assert_eq!(after.last_verified_at_unix_seconds, Some(now + 2));

    let dropped = store.deactivate(now + 3);
    assert_eq!(dropped.state, LicenseState::ProInvalid);
    assert!(dropped.reason.unwrap().contains("not activated"));
}

#[test]
fn license_install_rejects_bad_signature_or_schema() {
    let now = 1_700_000_000u64;
    let mut store = LicenseStore::new();
    assert!(store.install_license(&payload(None), false, now).is_err());
    let mut bad = payload(None);
    bad.plan = "free".to_string();
    assert!(store.install_license(&bad, true, now).is_err());
    // An expired license installs (expired is not invalid).
    assert!(store.install_license(&payload(Some(1)), true, now).is_ok());
    assert_eq!(store.status(now).state, LicenseState::ProExpired);
}

fn bundle(rules_version: u64) -> ThreatFeedBundle {
    ThreatFeedBundle {
        version: 1,
        bundle_id: "11111111-2222-3333-4444-555555555555".to_string(),
        created_at: 1_700_000_000,
        rules_version,
        reputation: ReputationPayload {
            domains_block: vec!["bad.example".to_string()],
            hashes_block: vec![],
            wallet_spenders_block: vec![],
        },
        rules: vec![FeedRule {
            rule_id: "R009".to_string(),
            enabled: true,
            severity_floor: agent_core::types::Severity::Yellow,
            severity_cap_learning: agent_core::types::Severity::Yellow,
            severity_strict: agent_core::types::Severity::Red,
            notes: None,
        }],
    }
}

#[test]
fn bundle_schema_checks_every_field() {
    assert!(validate_bundle_schema(&bundle(3)).is_ok());

    let mut bad = bundle(3);
    bad.version = 2;
    assert!(validate_bundle_schema(&bad).is_err());

    let mut bad = bundle(3);
    bad.bundle_id = "nope".to_string();
    assert!(validate_bundle_schema(&bad).is_err());

    let mut bad = bundle(3);
    bad.created_at = 0;
    assert!(validate_bundle_schema(&bad).is_err());

    let bad = bundle(0);
    assert!(validate_bundle_schema(&bad).is_err());

    let mut bad = bundle(3);
    bad.rules[0].rule_id = "  ".to_string();
    assert!(validate_bundle_schema(&bad).is_err());
}

#[test]
fn import_then_load_current_round_trips() {
    let mut store = FeedStore::new();
    store.import(&bundle(7), true, 1_700_000_000).expect("import succeeds");
    let loaded = store.load_current().expect("a bundle is installed");
    assert_eq!(loaded.rules_version, 7);
    assert_eq!(loaded.bundle_id, "11111111-2222-3333-4444-555555555555");
}

#[test]
fn load_current_never_surfaces_an_invalid_bundle() {
    // A store whose current and last-known-good copies both fail schema
    // validation yields nothing.
    let mut invalid = bundle(3);
    invalid.bundle_id = "not-a-uuid".to_string();
    let store = FeedStore {
        current: Some(invalid.clone()),
        last_good: Some(invalid),
        meta: FeedStore::new().meta,
    };
    assert!(store.load_current().is_none());
}

#[test]
fn import_rejects_bad_signature_and_keeps_last_good() {
    let mut store = FeedStore::new();
    store.import(&bundle(7), true, 1_700_000_000).expect("first import succeeds");
    assert!(store.import(&bundle(8), false, 1_700_000_100).is_err());
    let loaded = store.load_current().expect("the first bundle is still there");
    assert_eq!(loaded.rules_version, 7);
}

#[test]
fn signature_of_wrong_length_is_rejected() {
    let key = vec![0u8; 32];
    let payload = b"payload".to_vec();
    // 63 raw bytes are not a signature file: they must be text.
    let short_raw = vec![0x41u8; 20];
    let r = verify_detached_signature(&key, &payload, &short_raw);
    assert_eq!(r, Err(SigError::InvalidLength));
    // Text that decodes to fewer than 64 bytes is rejected for its length.
    let b64_text = b"AAAA".to_vec();
    assert_eq!(normalize_sig_bytes(&b64_text).unwrap(), vec![0u8, 0, 0]);
    assert_eq!(verify_detached_signature(&key, &payload, &b64_text), Err(SigError::InvalidLength));
    // Raw 64 bytes pass normalization untouched.
    let raw = vec![1u8; 64];
    assert_eq!(normalize_sig_bytes(&raw).unwrap(), raw);
}

#[test]
fn signature_text_forms_are_normalized() {
    // Standard base64 with padding is accepted as a fallback.
    let std_text = b"AA==".to_vec();
    assert_eq!(normalize_sig_bytes(&std_text).unwrap(), vec![0u8]);
    // Blank text is rejected as empty.
    let blank = b"   ".to_vec();
    assert_eq!(normalize_sig_bytes(&blank), Err(SigError::EmptySignature));
    // Non-UTF-8 bytes of the wrong length are rejected as not text.
    let junk = vec![0xffu8, 0xfe, 0xfd];
    assert_eq!(normalize_sig_bytes(&junk), Err(SigError::NotText));
    // Text that is no base64 at all fails to decode.
    let bad = b"!!!".to_vec();
    assert_eq!(normalize_sig_bytes(&bad), Err(SigError::DecodeFailure));
}

#[test]
fn decode_sig_base64url_trims_and_decodes() {
    assert_eq!(decode_sig_base64url(" AAAA \n").unwrap(), vec![0u8, 0, 0]);
    assert!(decode_sig_base64url("!!").is_err());
}

#[test]
fn auto_refresh_requires_license_and_valid_config() {
    let mut cfg = agent_core::config::Config::default();
    cfg.threat_feed.auto_refresh = true;

    let e = auto_refresh_eligibility(&cfg, LicenseState::ProActive);
    assert!(e.eligible);
    assert_eq!(e.interval_minutes, 60);

    assert!(!auto_refresh_eligibility(&cfg, LicenseState::Community).eligible);
    assert!(!auto_refresh_eligibility(&cfg, LicenseState::ProExpired).eligible);

    cfg.threat_feed.auto_refresh = false;
    assert!(!auto_refresh_eligibility(&cfg, LicenseState::ProActive).eligible);

    cfg.threat_feed.auto_refresh = true;
    cfg.threat_feed.endpoints = vec!["http://updates.aidefender.shop/feed/".to_string()];
    assert!(!auto_refresh_eligibility(&cfg, LicenseState::ProActive).eligible);
}

#[test]
fn scheduler_arms_fires_and_clears() {
    let mut s = AutoRefreshScheduler::new();
    let now = 1_700_000_000_000u64;

    // First eligible tick arms the timer without refreshing.
    assert!(!s.tick(true, 60, now));
    assert_eq!(s.next_due_unix_ms, Some(now + 3_600_000));

    // Before the due time nothing happens.
    assert!(!s.tick(true, 60, now + 1));
    // At the due time a refresh is requested and the timer re-arms.
    assert!(s.tick(true, 60, now + 3_600_000));
    assert_eq!(s.next_due_unix_ms, Some(now + 7_200_000));

    // Ineligibility clears the timer.
    assert!(!s.tick(false, 60, now + 7_200_000));
    assert!(s.next_due_unix_ms.is_none());
}
