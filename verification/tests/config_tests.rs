use agent_core::collector::normalize_sysmon;
use agent_core::config::{
    validate_threat_feed_config, Config, ConfigFile, KillSwitchConfig, LegacySafetyConfig, Mode,
    ThreatFeedConfig, to_config_file,
};
use agent_core::console::{console_verb, parse_bool, parse_limit, strip_console_flag,
    ConsoleAction, ConsoleVerb};
use agent_core::incident_store::{IncidentLog, IncidentRecord, IncidentSummary, summarize};
use agent_core::protected_paths::{
    classify_protected_target, is_under_protected_root, ProtectedTarget, Roots,
};
use agent_core::types::{redact_path_for_log, Event, Finding, Incident, Severity};

fn empty_config_file() -> ConfigFile {
    ConfigFile {
        mode: None,
        correlation_window_seconds: None,
        logging: None,
        killswitch: None,
        allowlist: None,
        protected: None,
        threat_feed: None,
        safety: None,
        failsafe_minutes: None,
    }
}

#[test]
fn defaults_match_the_documented_values() {
    let cfg = Config::default();
    assert_eq!(cfg.mode, Mode::Learning);
    assert_eq!(cfg.correlation_window_seconds, 120);
    assert_eq!(cfg.logging.level, "info");
    assert_eq!(cfg.logging.retention_days, 14);
    assert!(cfg.killswitch.enabled);
    assert!(cfg.killswitch.auto_trigger);
    assert_eq!(cfg.killswitch.failsafe_minutes, 10);
    assert_eq!(
        cfg.allowlist.publishers,
        vec!["Microsoft Windows", "Google LLC", "Mozilla Corporation"]
    );
    assert!(cfg.allowlist.paths_allowlist.is_empty());
    assert_eq!(cfg.protected.chrome_targets, vec!["Login Data", "Cookies", "Local State"]);
    assert_eq!(cfg.protected.firefox_targets, vec!["logins.json", "key4.db", "cookies.sqlite"]);
    assert!(!cfg.threat_feed.auto_refresh);
    assert_eq!(cfg.threat_feed.refresh_interval_minutes, 60);
    assert_eq!(cfg.threat_feed.timeout_seconds, 10);
}

#[test]
fn legacy_safety_and_failsafe_fields_upgrade() {
    let mut file = empty_config_file();
    file.safety = Some(LegacySafetyConfig { strict_mode: true });
    file.failsafe_minutes = Some(42);
    let cfg = file.normalize();
    assert_eq!(cfg.mode, Mode::Strict);
    assert_eq!(cfg.killswitch.failsafe_minutes, 42);

    // An explicit killswitch section with a non-default failsafe wins over
    // the legacy top-level field.
    let mut file2 = empty_config_file();
    file2.killswitch = Some(KillSwitchConfig { enabled: true, auto_trigger: false, failsafe_minutes: 5 });
    file2.failsafe_minutes = Some(42);
    let cfg2 = file2.normalize();
    assert_eq!(cfg2.killswitch.failsafe_minutes, 5);
    assert!(!cfg2.killswitch.auto_trigger);

    // An explicit mode wins over the legacy safety flag.
    let mut file3 = empty_config_file();
    file3.mode = Some(Mode::Learning);
    file3.safety = Some(LegacySafetyConfig { strict_mode: true });
    assert_eq!(file3.normalize().mode, Mode::Learning);
}

#[test]
fn invalid_threat_feed_config_forces_auto_refresh_off() {
    let mut file = empty_config_file();
    file.threat_feed = Some(ThreatFeedConfig {
        auto_refresh: true,
        refresh_interval_minutes: 60,
        endpoints: vec!["http://updates.aidefender.shop/feed/".to_string()],
        allowlist_domains: vec!["updates.aidefender.shop".to_string()],
        timeout_seconds: 10,
    });
    let cfg = file.normalize();
    assert!(!cfg.threat_feed.auto_refresh);

    let mut file2 = empty_config_file();
    file2.threat_feed = Some(ThreatFeedConfig {
        auto_refresh: true,
        refresh_interval_minutes: 60,
        endpoints: vec!["https://updates.aidefender.shop/feed/".to_string()],
        allowlist_domains: vec!["updates.aidefender.shop".to_string()],
        timeout_seconds: 10,
    });
    assert!(file2.normalize().threat_feed.auto_refresh);
}

#[test]
fn threat_feed_validation_names_every_failure() {
    let good = ThreatFeedConfig {
        auto_refresh: true,
        refresh_interval_minutes: 60,
        endpoints: vec!["https://updates.aidefender.shop/feed/".to_string()],
        allowlist_domains: vec!["updates.aidefender.shop".to_string()],
        timeout_seconds: 10,
    };
    assert!(validate_threat_feed_config(&good).is_none());

    let mut bad = good.clone();
    bad.refresh_interval_minutes = 0;
    assert!(validate_threat_feed_config(&bad).is_some());

    let mut bad = good.clone();
    bad.timeout_seconds = 0;
    assert!(validate_threat_feed_config(&bad).is_some());

    let mut bad = good.clone();
    bad.endpoints = vec![];
    assert!(validate_threat_feed_config(&bad).is_some());

    let mut bad = good.clone();
    bad.allowlist_domains = vec![];
    assert!(validate_threat_feed_config(&bad).is_some());

    let mut bad = good.clone();
    bad.endpoints = vec!["https://other.example/feed/".to_string()];
    assert!(validate_threat_feed_config(&bad).is_some());

    let mut bad = good.clone();
    bad.endpoints = vec!["not a url".to_string()];
    assert!(validate_threat_feed_config(&bad).is_some());
}

#[test]
fn config_file_round_trip_keeps_every_section() {
    let cfg = Config::default();
    let file = to_config_file(&cfg);
    assert!(!file.needs_upgrade());
    assert!(file.safety.is_none());
    assert!(file.failsafe_minutes.is_none());
    let back = file.normalize();
    assert_eq!(back.mode, cfg.mode);
    assert_eq!(back.correlation_window_seconds, cfg.correlation_window_seconds);
    assert!(empty_config_file().needs_upgrade());
}

#[test]
fn classify_chrome_login_data() {
    let roots = Roots {
        local_appdata: "C:\\Users\\Me\\AppData\\Local".to_string(),
        roaming_appdata: "C:\\Users\\Me\\AppData\\Roaming".to_string(),
    };
    let cfg = Config::default();
    let p = "C:\\Users\\Me\\AppData\\Local\\Google\\Chrome\\User Data\\Default\\Login Data";
    let t = classify_protected_target(&cfg, &roots, p);
    assert!(matches!(t, Some(ProtectedTarget::ChromeLoginData)));
}

#[test]
fn classify_firefox_key4() {
    let roots = Roots {
        local_appdata: "C:\\Users\\Me\\AppData\\Local".to_string(),
        roaming_appdata: "C:\\Users\\Me\\AppData\\Roaming".to_string(),
    };
    let cfg = Config::default();
    let p = "C:\\Users\\Me\\AppData\\Roaming\\Mozilla\\Firefox\\Profiles\\abcd.default\\key4.db";
    let t = classify_protected_target(&cfg, &roots, p);
    assert!(matches!(t, Some(ProtectedTarget::FirefoxKey4Db)));
}

#[test]
fn classification_covers_edge_brave_and_unknown_leaves() {
    let roots = Roots {
        local_appdata: "C:\\Users\\Me\\AppData\\Local".to_string(),
        roaming_appdata: "C:\\Users\\Me\\AppData\\Roaming".to_string(),
    };
    let cfg = Config::default();
    let edge = "C:\\Users\\Me\\AppData\\Local\\Microsoft\\Edge\\User Data\\Default\\Cookies";
    assert!(matches!(
        classify_protected_target(&cfg, &roots, edge),
        Some(ProtectedTarget::ChromeCookies)
    ));
    let brave =
        "C:\\Users\\Me\\AppData\\Local\\BraveSoftware\\Brave-Browser\\User Data\\Default\\Local State";
    assert!(matches!(
        classify_protected_target(&cfg, &roots, brave),
        Some(ProtectedTarget::ChromeLocalState)
    ));
    let sqlite =
        "C:\\Users\\Me\\AppData\\Roaming\\Mozilla\\Firefox\\Profiles\\abcd.default\\cookies.sqlite";
    assert!(matches!(
        classify_protected_target(&cfg, &roots, sqlite),
        Some(ProtectedTarget::FirefoxCookiesSqlite)
    ));
    let other = "C:\\Users\\Me\\AppData\\Local\\Google\\Chrome\\User Data\\Default\\History";
    assert!(classify_protected_target(&cfg, &roots, other).is_none());
    let outside = "D:\\data\\Login Data";
    assert!(classify_protected_target(&cfg, &roots, outside).is_none());

    assert!(is_under_protected_root(&roots, other));
    assert!(!is_under_protected_root(&roots, outside));
}

#[test]
fn redaction_keeps_only_the_final_component() {
    assert_eq!(redact_path_for_log("C:\\Users\\Me\\secret\\Login Data"), "Login Data");
    assert_eq!(redact_path_for_log("a/b/c.txt"), "c.txt");
    assert_eq!(redact_path_for_log("plain.txt"), "plain.txt");
    assert_eq!(redact_path_for_log("dir\\"), "<redacted>");
    assert_eq!(redact_path_for_log(""), "<redacted>");
}

#[test]
fn store_then_list_surfaces_newest_first() {
    let mut log = IncidentLog::new();
    let older = Incident::new(vec![Finding {
        rule_id: "R001".to_string(),
        severity: Severity::Yellow,
        description: "older".to_string(),
        evidence: vec![],
        timestamp_unix_ms: 1,
    }]);
    let newer = Incident::new(vec![Finding {
        rule_id: "R009".to_string(),
        severity: Severity::Red,
        description: "newer".to_string(),
        evidence: vec![],
        timestamp_unix_ms: 2,
    }]);
    log.store_incident(&older, 1_000);
    log.store_incident(&newer, 2_000);

    let listed = log.list_recent(10);
    assert_eq!(listed.len(), 2);
    assert_eq!(listed[0].incident_id, newer.incident_id);
    assert_eq!(listed[0].rule_ids, vec!["R009"]);
    assert_eq!(listed[1].incident_id, older.incident_id);

    assert_eq!(log.list_recent(1).len(), 1);
    assert_eq!(log.list_recent(0).len(), 0);
}

#[test]
fn listing_tolerates_records_that_do_not_parse() {
    let mut log = IncidentLog::new();
    let good = Incident::new(vec![]);
    log.store_incident(&good, 1_000);
    let summary = summarize(&good);
    log.records.push(IncidentRecord { mtime_unix_ms: 2_000, parse_ok: false, summary });
    let listed = log.list_recent(10);
    assert_eq!(listed.len(), 1);
    assert_eq!(listed[0].incident_id, good.incident_id);
}

#[test]
fn console_verbs_dispatch_in_precedence_order() {
    let args = |v: &[&str]| v.iter().map(|s| s.to_string()).collect::<Vec<String>>();

    assert_eq!(console_verb(&args(&["--feed", "--help"])), ConsoleVerb::Help);
    assert_eq!(console_verb(&args(&["-h"])), ConsoleVerb::Help);
    assert_eq!(
        console_verb(&args(&["--killswitch", "status"])),
        ConsoleVerb::KillSwitch(0)
    );
    assert_eq!(
        console_verb(&args(&["x", "--incidents", "list"])),
        ConsoleVerb::Incidents(1)
    );
    assert_eq!(console_verb(&args(&["--simulate", "red"])), ConsoleVerb::Simulate(0));
    assert_eq!(console_verb(&args(&["--license", "status"])), ConsoleVerb::License(0));
    assert_eq!(console_verb(&args(&["--feed", "status"])), ConsoleVerb::Feed(0));
    // The kill switch outranks a later flag, as the dispatch order says.
    assert_eq!(
        console_verb(&args(&["--killswitch", "--feed"])),
        ConsoleVerb::KillSwitch(0)
    );
    assert_eq!(console_verb(&args(&[])), ConsoleVerb::RunAgent);
}

#[test]
fn console_argument_helpers() {
    assert_eq!(parse_bool("true"), Some(true));
    assert_eq!(parse_bool("on"), Some(true));
    assert_eq!(parse_bool("0"), Some(false));
    assert_eq!(parse_bool("maybe"), None);

    let args = vec!["--incidents".to_string(), "list".to_string(), "--limit".to_string(), "3".to_string()];
    assert_eq!(parse_limit(&args), Some(3));
    assert_eq!(parse_limit(&vec!["--limit".to_string()]), None);
    assert_eq!(parse_limit(&vec!["list".to_string()]), None);

    let stripped = strip_console_flag(&vec![
        "--console".to_string(),
        "--killswitch".to_string(),
        "--dry-run".to_string(),
        "status".to_string(),
    ]);
    assert_eq!(stripped, vec!["--killswitch", "status"]);

    assert_eq!(ConsoleAction::RunAgent, ConsoleAction::RunAgent);
}

#[test]
fn decimal_parsing_matches_the_spec() {
    assert_eq!(agent_core::text::parse_u64_dec("123"), Some(123));
    assert_eq!(agent_core::text::parse_u64_dec("+7"), Some(7));
    assert_eq!(agent_core::text::parse_u64_dec(""), None);
    assert_eq!(agent_core::text::parse_u64_dec("12a"), None);
    assert_eq!(agent_core::text::parse_u64_dec("18446744073709551615"), Some(u64::MAX));
    assert_eq!(agent_core::text::parse_u64_dec("18446744073709551616"), None);
    assert_eq!(agent_core::text::parse_u32_dec("4294967296"), None);
    assert_eq!(agent_core::text::parse_u16_dec("443"), Some(443));
}

#[test]
fn sysmon_records_normalize_to_events() {
    let start = vec![
        ("ProcessId".to_string(), "4242".to_string()),
        ("ParentProcessId".to_string(), "4".to_string()),
        ("Image".to_string(), "C:\\Temp\\evil.exe".to_string()),
        ("Company".to_string(), "Acme".to_string()),
    ];
    match normalize_sysmon(1, &start, 5) {
        Some(Event::ProcessStart { pid, ppid, image_path, signer_publisher, timestamp_unix_ms }) => {
            assert_eq!(pid, 4242);
            assert_eq!(ppid, 4);
            assert_eq!(image_path, "C:\\Temp\\evil.exe");
            assert_eq!(signer_publisher, Some("Acme".to_string()));
            assert_eq!(timestamp_unix_ms, 5);
        },
        other => panic!("unexpected normalization: {other:?}"),
    }

    let connect = vec![
        ("ProcessId".to_string(), "1".to_string()),
        ("DestinationIp".to_string(), "1.2.3.4".to_string()),
        ("DestinationPort".to_string(), "443".to_string()),
    ];
    match normalize_sysmon(3, &connect, 6) {
        Some(Event::NetConnect { dest_ip, dest_port, protocol, .. }) => {
            assert_eq!(dest_ip, "1.2.3.4");
            assert_eq!(dest_port, 443);
            assert_eq!(protocol, "unknown");
        },
        other => panic!("unexpected normalization: {other:?}"),
    }

    let write = vec![
        ("ProcessId".to_string(), "1".to_string()),
        ("TargetFilename".to_string(), "C:\\x".to_string()),
    ];
    assert!(matches!(normalize_sysmon(11, &write, 7), Some(Event::FileAccess { .. })));

    assert!(normalize_sysmon(2, &write, 7).is_none());
    let no_pid = vec![("Image".to_string(), "x".to_string())];
    assert!(normalize_sysmon(1, &no_pid, 7).is_none());
}

#[test]
fn paths_follow_the_documented_layout() {
    let base = "C:\\ProgramData\\AI Defender";
    assert_eq!(agent_core::paths::config_path(base), "C:\\ProgramData\\AI Defender\\config.toml");
    assert_eq!(
        agent_core::paths::killswitch_state_path(base),
        "C:\\ProgramData\\AI Defender\\killswitch-state.toml"
    );
    assert_eq!(
        agent_core::paths::license_json_path(base),
        "C:\\ProgramData\\AI Defender\\license\\license.json"
    );
    assert_eq!(
        agent_core::paths::threat_feed_bundle_path(base),
        "C:\\ProgramData\\AI Defender\\threat-feed\\bundle.json"
    );
    assert_eq!(
        agent_core::paths::threat_feed_last_good_bundle_path(base),
        "C:\\ProgramData\\AI Defender\\threat-feed\\bundle.json.last-good"
    );
}

#[test]
fn uuid_strings_are_hyphenated_form() {
    let inc = Incident::new(vec![]);
    assert_eq!(inc.incident_id.len(), 36);
    let other = Incident::new(vec![]);
    assert_ne!(inc.incident_id, other.incident_id);
}

#[test]
fn effective_mode_keeps_strict_with_builtin_rules() {
    let mut cfg = Config::default();
    cfg.mode = Mode::Strict;
    assert_eq!(agent_core::agent::effective_mode(&cfg), Mode::Strict);
    assert_eq!(
        agent_core::rules::active_rule_ids(),
        vec!["R001", "R002", "R003", "R004", "R005"]
    );
}
