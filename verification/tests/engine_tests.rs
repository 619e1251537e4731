use agent_core::config::{AllowlistConfig, Config, Mode};
use agent_core::engine::{publisher_allowlisted, Engine};
use agent_core::protected_paths::Roots;
use agent_core::types::{Event, FileAccessType, Incident, Severity};

fn default_roots() -> Roots {
    Roots {
        local_appdata: "C:\\Users\\User\\AppData\\Local".to_string(),
        roaming_appdata: "C:\\Users\\User\\AppData\\Roaming".to_string(),
    }
}

fn cfg() -> Config {
    Config::default()
}

fn chain_events(pid: u32, base: u64, image: &str, publisher: Option<&str>, dest_host: Option<&str>, net_at: u64) -> Vec<Event> {
    let file_path =
        "C:\\Users\\User\\AppData\\Local\\Google\\Chrome\\User Data\\Default\\Login Data"
            .to_string();
    vec![
        Event::ProcessStart {
            pid,
            ppid: 0,
            image_path: image.to_string(),
            signer_publisher: publisher.map(|s| s.to_string()),
            timestamp_unix_ms: base,
        },
        Event::FileAccess {
            pid,
            image_path: Some(image.to_string()),
            file_path,
            access: FileAccessType::Read,
            timestamp_unix_ms: base + 1_000,
        },
        Event::NetConnect {
            pid,
            image_path: Some(image.to_string()),
            dest_ip: "1.2.3.4".to_string(),
            dest_port: 443,
            dest_host: dest_host.map(|s| s.to_string()),
            protocol: "tcp".to_string(),
            timestamp_unix_ms: net_at,
        },
    ]
}

#[test]
fn correlation_generates_red_within_window() {
    let cfg = cfg();
    let mut eng = Engine::new();
    let pid = 1234;
    let base = 1_700_000_000_000u64;

    let events = chain_events(pid, base, "C:\\Temp\\evil.exe", None, None, base + 2_000);
    let incidents = eng.process(&cfg, &default_roots(), &events);
    assert!(incidents
        .iter()
        .any(|i| i.findings.iter().any(|f| f.rule_id == "R009")));
    assert!(incidents.iter().any(|i| i.severity == Severity::Red));
}

#[test]
fn correlation_does_not_fire_outside_window() {
    let mut cfg = cfg();
    cfg.correlation_window_seconds = 1;
    let mut eng = Engine::new();
    let pid = 1234;
    let base = 1_700_000_000_000u64;

    let mut events = chain_events(pid, base, "C:\\Temp\\evil.exe", None, None, base + 5_000);
    // The file access happens at the base time, as in the scenario.
    if let Event::FileAccess { timestamp_unix_ms, .. } = &mut events[1] {
        *timestamp_unix_ms = base;
    }
    let incidents = eng.process(&cfg, &default_roots(), &events);
    assert!(!incidents
        .iter()
        .any(|i| i.findings.iter().any(|f| f.rule_id == "R009")));
}

#[test]
fn browser_self_access_produces_no_incident() {
    let cfg = cfg();
    let mut eng = Engine::new();
    let pid = 2001;
    let base = 1_700_000_000_000u64;

    let events = chain_events(
        pid,
        base,
        "C:\\Program Files\\Google\\Chrome\\Application\\chrome.exe",
        Some("Google LLC"),
        Some("example.com"),
        base + 2_000,
    );
    let incidents = eng.process(&cfg, &default_roots(), &events);
    assert!(incidents.is_empty());
}

#[test]
fn allowlisted_publisher_suppresses_findings() {
    let cfg = cfg();
    let mut eng = Engine::new();
    let pid = 3001;
    let base = 1_700_000_000_000u64;

    let file_path =
        "C:\\Users\\User\\AppData\\Local\\Google\\Chrome\\User Data\\Default\\Cookies".to_string();
    let events = vec![
        Event::ProcessStart {
            pid,
            ppid: 0,
            image_path: "C:\\Temp\\backup-tool.exe".to_string(),
            signer_publisher: Some("  gOoGlE llC  ".to_string()),
            timestamp_unix_ms: base,
        },
        Event::FileAccess {
            pid,
            image_path: Some("C:\\Temp\\backup-tool.exe".to_string()),
            file_path,
            access: FileAccessType::Read,
            timestamp_unix_ms: base + 1_000,
        },
    ];
    let incidents = eng.process(&cfg, &default_roots(), &events);
    assert!(incidents.is_empty());
}

#[test]
fn publisher_allowlist_normalizes_case_and_whitespace() {
    let a = AllowlistConfig {
        publishers: vec!["Google LLC".to_string()],
        paths_allowlist: vec![],
    };

    assert!(publisher_allowlisted(&a, Some("google llc")));
    assert!(publisher_allowlisted(&a, Some("  GoOgLe LLC  ")));
    assert!(!publisher_allowlisted(&a, Some("Mozilla Corporation")));
    assert!(!publisher_allowlisted(&a, None));
}

#[test]
fn chain_fires_at_window_boundary_and_not_past_it() {
    // The default correlation window is 120 s; the boundary is inclusive.
    let cfg = cfg();
    let base = 1_700_000_000_000u64;
    let window_ms = cfg.correlation_window_seconds * 1_000;

    let mut eng = Engine::new();
    let at_boundary = chain_events(1, base, "C:\\Temp\\evil.exe", None, None, base + 1_000 + window_ms);
    let incidents = eng.process(&cfg, &default_roots(), &at_boundary);
    assert!(incidents
        .iter()
        .any(|i| i.findings.iter().any(|f| f.rule_id == "R009")));

    let mut eng2 = Engine::new();
    let past_boundary =
        chain_events(2, base, "C:\\Temp\\evil.exe", None, None, base + 1_000 + window_ms + 1);
    let incidents2 = eng2.process(&cfg, &default_roots(), &past_boundary);
    assert!(!incidents2
        .iter()
        .any(|i| i.findings.iter().any(|f| f.rule_id == "R009")));
}

fn enumeration_events(count: u64) -> Vec<Event> {
    let base = 1_700_000_000_000u64;
    let mut events = vec![Event::ProcessStart {
        pid: 7,
        ppid: 0,
        image_path: "C:\\Temp\\scraper.exe".to_string(),
        signer_publisher: None,
        timestamp_unix_ms: base,
    }];
    for i in 0..count {
        events.push(Event::FileAccess {
            pid: 7,
            image_path: Some("C:\\Temp\\scraper.exe".to_string()),
            file_path:
                "C:\\Users\\User\\AppData\\Local\\Google\\Chrome\\User Data\\Default\\Cookies"
                    .to_string(),
            access: FileAccessType::Read,
            timestamp_unix_ms: base + i * 10,
        });
    }
    events
}

#[test]
fn enumeration_threshold_is_fifty_hits() {
    let cfg = cfg();

    let mut eng = Engine::new();
    let incidents = eng.process(&cfg, &default_roots(), &enumeration_events(49));
    assert!(!incidents
        .iter()
        .any(|i| i.findings.iter().any(|f| f.rule_id == "R007")));

    let mut eng2 = Engine::new();
    let incidents2 = eng2.process(&cfg, &default_roots(), &enumeration_events(50));
    assert!(incidents2
        .iter()
        .any(|i| i.findings.iter().any(|f| f.rule_id == "R007")));
}

#[test]
fn chain_red_reports_r009_and_r010_for_unknown_host() {
    let cfg = cfg();
    let mut eng = Engine::new();
    let base = 1_700_000_000_000u64;

    let events = chain_events(4242, base, "C:\\Temp\\evil.exe", None, None, base + 2_000);
    let incidents = eng.process(&cfg, &default_roots(), &events);
    assert!(incidents
        .iter()
        .any(|i| i.findings.iter().any(|f| f.rule_id == "R009")));
    assert!(incidents
        .iter()
        .any(|i| i.findings.iter().any(|f| f.rule_id == "R010")));
    // A named host suppresses only the direct-IP finding.
    let mut eng2 = Engine::new();
    let events2 =
        chain_events(4243, base, "C:\\Temp\\evil.exe", None, Some("evil.example"), base + 2_000);
    let incidents2 = eng2.process(&cfg, &default_roots(), &events2);
    assert!(incidents2
        .iter()
        .any(|i| i.findings.iter().any(|f| f.rule_id == "R009")));
    assert!(!incidents2
        .iter()
        .any(|i| i.findings.iter().any(|f| f.rule_id == "R010")));
}

#[test]
fn unknown_publisher_adds_r008_and_incident_severity_is_max() {
    let cfg = cfg();
    let mut eng = Engine::new();
    let base = 1_700_000_000_000u64;
    let events = vec![Event::FileAccess {
        pid: 9,
        image_path: Some("C:\\Temp\\tool.exe".to_string()),
        file_path:
            "C:\\Users\\User\\AppData\\Local\\Google\\Chrome\\User Data\\Default\\Login Data"
                .to_string(),
        access: FileAccessType::Read,
        timestamp_unix_ms: base,
    }];
    let incidents = eng.process(&cfg, &default_roots(), &events);
    assert_eq!(incidents.len(), 1);
    let inc = &incidents[0];
    assert!(inc.findings.iter().any(|f| f.rule_id == "R001"));
    assert!(inc.findings.iter().any(|f| f.rule_id == "R008"));
    assert_eq!(inc.severity, Severity::Yellow);
    assert_eq!(inc.incident_id.len(), 36);
}

#[test]
fn incident_severity_is_maximum_of_findings() {
    let f = |rule: &str, sev: Severity| agent_core::types::Finding {
        rule_id: rule.to_string(),
        severity: sev,
        description: "test".to_string(),
        evidence: vec![],
        timestamp_unix_ms: 1,
    };
    let inc = Incident::new(vec![f("A", Severity::Green), f("B", Severity::Red), f("C", Severity::Yellow)]);
    assert_eq!(inc.severity, Severity::Red);
    assert_eq!(inc.max_severity(), Severity::Red);
    let empty = Incident::new(vec![]);
    assert_eq!(empty.severity, Severity::Green);
}

#[test]
fn correlation_state_survives_across_ticks() {
    // The file access arrives in one tick, the connect in the next; the
    // engine's per-process state carries the chain across the calls.
    let base = 1_700_000_000_000u64;
    let mut agent = agent_core::agent::Agent::new(Config::default());
    let events = chain_events(11, base, "C:\\Temp\\evil.exe", None, None, base + 2_000);
    let first_tick = vec![events[0].clone(), events[1].clone()];
    let second_tick = vec![events[2].clone()];

    let incidents1 = agent.process_events(&default_roots(), &first_tick);
    assert!(!incidents1
        .iter()
        .any(|i| i.findings.iter().any(|f| f.rule_id == "R009")));
    let incidents2 = agent.process_events(&default_roots(), &second_tick);
    assert!(incidents2
        .iter()
        .any(|i| i.findings.iter().any(|f| f.rule_id == "R009")));
}

#[test]
fn strict_pipeline_requests_the_kill_switch_on_red() {
    let mut cfg = cfg();
    cfg.mode = Mode::Strict;
    let base = 1_700_000_000_000u64;
    let events = chain_events(12, base, "C:\\Temp\\evil.exe", None, None, base + 2_000);
    let handled = agent_core::console::run_events_through_pipeline(&cfg, &default_roots(), &events);
    let red = handled
        .iter()
        .find(|(inc, _)| inc.severity == Severity::Red)
        .expect("the chain must produce a red incident");
    let req = red.1.as_ref().expect("strict mode must request the kill switch");
    assert_eq!(req.incident_id, red.0.incident_id);
    assert_eq!(req.failsafe_minutes, 10);
}
