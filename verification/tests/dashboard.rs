use manticore_sentinel::actions::DenialSource;
use manticore_sentinel::audit::AuditEvent;
use manticore_sentinel::command::{parse_command, CommandAction};
use manticore_sentinel::help::help_text;
use manticore_sentinel::palette::{palette_start, palette_step, PaletteAction, PaletteEvent, PaletteStage, PaletteState};
use manticore_sentinel::policy::PolicyDecision;
use manticore_sentinel::telemetry::{due_tasks, PollClock, PollConfig, PollTasks};
use manticore_sentinel::auth::{AuthContext, AuthGate, AuthMode, Role};
use manticore_sentinel::config::{
    anchor_config, anchor_interval_secs, connector_poll_ms, helper_in_subprocess, ConnectorConfig,
    EvrusConfig, PeerWeaveConfig,
};
use manticore_sentinel::connectors::{
    connectors_report, evrus_health, peerweave_health, status_debug, wizard_default_url,
    wizard_env_block, ConnectorHealth, ConnectorStatus, ConnectorSummary,
};
use manticore_sentinel::collectors::{sort_panel_rows, DiskMetrics, NetworkMetrics};
use manticore_sentinel::console::process_churn;
use manticore_sentinel::reports::{disk_panel_heading, network_panel_heading};
use manticore_sentinel::feed::{
    allow_deny_counts, audit_analytics, audit_page, event_is_denial, event_passes, filter_events,
    page_label, AuditPage,
};
use manticore_sentinel::lockout::AuthLockout;
use manticore_sentinel::processes::{
    bar_label, filter_processes, order_processes, process_header, ProcessRow, ProcessSort,
};
use manticore_sentinel::workbench::{
    chip_label, completion_chips, feedback_is_refusal, kill_confirmed, kill_phrase,
};

fn event(ts: u64, action: &str, result: &str) -> AuditEvent {
    AuditEvent {
        ts,
        action: action.to_string(),
        target: "1234".to_string(),
        result: result.to_string(),
        actor: "operator".to_string(),
        sig: None,
        policy_hash: None,
        anchor_txid: None,
        anchor_blockheight: None,
        anchor_merkle_root: None,
    }
}

#[test]
fn denials_are_counted_case_blind() {
    assert!(event_is_denial(&event(1, "kill", "denied: policy_gate: cooldown")));
    assert!(event_is_denial(&event(1, "kill", "DENIED")));
    assert!(!event_is_denial(&event(1, "kill", "ok")));
    let feed = vec![event(1, "kill", "Denied"), event(2, "renice", "ok"), event(3, "kill", "ok")];
    assert_eq!(allow_deny_counts(&feed), (2, 1));
    assert_eq!(allow_deny_counts(&vec![]), (0, 0));
}

#[test]
fn audit_filter_matches_any_field() {
    let feed = vec![event(100, "kill", "ok"), event(200, "renice", "denied"), event(300, "anchor", "ok")];
    assert_eq!(filter_events(&feed, ""), vec![0, 1, 2]);
    assert_eq!(filter_events(&feed, "   "), vec![0, 1, 2]);
    assert_eq!(filter_events(&feed, " KILL "), vec![0]);
    assert_eq!(filter_events(&feed, "DENIED"), vec![1]);
    assert_eq!(filter_events(&feed, "300"), vec![2]);
    assert_eq!(filter_events(&feed, "operator"), vec![0, 1, 2]);
    assert_eq!(filter_events(&feed, "kill 1234 ok"), vec![0]);
    assert!(filter_events(&feed, "zzz").is_empty());
    assert!(event_passes(&feed[1], "renice 1234"));
}

#[test]
fn audit_pages_clamp_to_the_last() {
    assert_eq!(audit_page(0, 3, 25), None);
    assert_eq!(
        audit_page(120, 0, 50),
        Some(AuditPage { page: 0, total_pages: 3, start: 0, end: 50, has_prev: false, has_next: true })
    );
    let last = audit_page(120, 7, 50).unwrap();
    assert_eq!(last, AuditPage { page: 2, total_pages: 3, start: 100, end: 120, has_prev: true, has_next: false });
    assert_eq!(page_label(&last, 120), "Page 3 of 3 (120 events)");
    assert_eq!(
        audit_page(100, 1, 25),
        Some(AuditPage { page: 1, total_pages: 4, start: 25, end: 50, has_prev: true, has_next: true })
    );
    assert_eq!(
        audit_page(1, 0, 100),
        Some(AuditPage { page: 0, total_pages: 1, start: 0, end: 1, has_prev: false, has_next: false })
    );
}

#[test]
fn audit_analytics_over_the_window() {
    let feed = vec![
        event(3600 * 5 + 10, "kill", "denied"),
        event(3600 * 5, "renice", "ok"),
        event(3600 * 6, "kill", "ok"),
        event(50, "anchor", "ok"),
    ];
    let a = audit_analytics(&feed, 100);
    assert_eq!(a.top_actions, vec![("kill".to_string(), 2), ("renice".to_string(), 1)]);
    assert_eq!(a.hour_bins.len(), 24);
    assert_eq!(a.hour_bins[5], 2);
    assert_eq!(a.hour_bins[6], 1);
    assert_eq!(a.hour_bins.iter().sum::<usize>(), 3);
    assert_eq!(a.timeline, vec![(18010, true), (18000, false), (21600, false)]);
}

#[test]
fn audit_chart_breaks_ties_by_name_and_keeps_ten() {
    let names = ["m", "b", "a", "l", "k", "j", "i", "h", "g", "f", "e", "d"];
    let mut feed: Vec<AuditEvent> = names.iter().map(|n| event(1000, n, "ok")).collect();
    feed.push(event(1000, "z", "ok"));
    feed.push(event(1000, "z", "ok"));
    let a = audit_analytics(&feed, 0);
    let got: Vec<(&str, usize)> = a.top_actions.iter().map(|(n, c)| (n.as_str(), *c)).collect();
    assert_eq!(
        got,
        vec![("z", 2), ("a", 1), ("b", 1), ("d", 1), ("e", 1), ("f", 1), ("g", 1), ("h", 1), ("i", 1), ("j", 1)]
    );
}

#[test]
fn audit_analytics_look_at_480_events() {
    let feed: Vec<AuditEvent> = (0..500u64).map(|i| event(1000 + i, "kill", "ok")).collect();
    let a = audit_analytics(&feed, 0);
    assert_eq!(a.timeline.len(), 480);
    assert_eq!(a.timeline[479].0, 1479);
    assert_eq!(a.top_actions, vec![("kill".to_string(), 480)]);
}

#[test]
fn completion_chips_hide_an_exact_match() {
    assert_eq!(completion_chips("").len(), 24);
    assert!(completion_chips("show cpu").is_empty());
    assert!(completion_chips("  show cpu ").is_empty());
    assert_eq!(completion_chips("show conf"), vec!["show config"]);
    assert_eq!(completion_chips("ki"), vec!["kill "]);
    assert!(completion_chips("frobnicate").is_empty());
    assert_eq!(chip_label("kill "), "kill <pid>");
    assert_eq!(chip_label("renice "), "renice <nice> <pid>");
    assert_eq!(chip_label("show cpu"), "show cpu");
}

#[test]
fn kill_needs_the_typed_phrase() {
    assert_eq!(kill_phrase(42), "KILL 42");
    assert!(kill_confirmed("  KILL 42 ", 42));
    assert!(!kill_confirmed("kill 42", 42));
    assert!(!kill_confirmed("KILL 43", 42));
    assert!(feedback_is_refusal("DENIED by policy"));
    assert!(feedback_is_refusal("Invalid: unknown command"));
    assert!(feedback_is_refusal("[policy] policy denied: cooldown"));
    assert!(!feedback_is_refusal("Renice done."));
}

#[test]
fn lockout_status_line() {
    let gate = AuthGate::new(
        AuthContext { mode: AuthMode::Token, role: Role::Operator },
        Some("sentinel-secret".to_string()),
        None,
    );
    let mut lock = AuthLockout::new();
    assert_eq!(lock.status_line_at(0), None);
    let t0 = std::time::Instant::now();
    assert!(lock.verify_at(&gate, Some("nope"), 10, 0, t0).is_err());
    assert_eq!(lock.status_line_at(0).unwrap(), "Auth failures: 1 (lockout after 3)");
    assert!(lock.verify_at(&gate, Some("nope"), 10, 0, t0).is_err());
    assert!(lock.verify_at(&gate, Some("nope"), 10, 0, t0).is_err());
    assert_eq!(lock.status_line_at(2500).unwrap(), "Auth lockout: 3 failures, retry in 7s");
    assert_eq!(lock.status_line_at(10_000).unwrap(), "Auth lockout: 3 failures, retry in 1s");
    assert_eq!(lock.status_line_at(10_001).unwrap(), "Auth failures: 3 (lockout after 3)");
}

fn rows() -> Vec<ProcessRow> {
    vec![
        ProcessRow { pid: 30, name: "zsh".into(), memory_bytes: 100, threads: 5, cmdline: "".into() },
        ProcessRow { pid: 10, name: "bash".into(), memory_bytes: 300, threads: 4, cmdline: "".into() },
        ProcessRow { pid: 20, name: "Vim".into(), memory_bytes: 300, threads: 2, cmdline: "vim /etc/hosts".into() },
    ]
}

#[test]
fn process_filter_and_orders() {
    let r = rows();
    assert_eq!(filter_processes(&r, ""), vec![0, 1, 2]);
    assert_eq!(filter_processes(&r, "VIM"), vec![2]);
    assert_eq!(filter_processes(&r, "10"), vec![1]);
    assert_eq!(filter_processes(&r, "hosts"), vec![2]);
    assert!(filter_processes(&r, "nothing").is_empty());
    assert_eq!(order_processes(&r, vec![0, 1, 2], ProcessSort::RssDesc), Some(vec![1, 2, 0]));
    assert_eq!(order_processes(&r, vec![2, 1, 0], ProcessSort::RssDesc), Some(vec![2, 1, 0]));
    assert_eq!(order_processes(&r, vec![0, 1, 2], ProcessSort::PidAsc), Some(vec![1, 2, 0]));
    assert_eq!(order_processes(&r, vec![0, 1, 2], ProcessSort::ThreadsDesc), Some(vec![0, 1, 2]));
    assert_eq!(order_processes(&r, vec![0, 1, 2], ProcessSort::CpuDesc), None);
    assert_eq!(ProcessSort::from_key(Some("rss")), ProcessSort::RssDesc);
    assert_eq!(ProcessSort::from_key(Some("threads")), ProcessSort::ThreadsDesc);
    assert_eq!(ProcessSort::from_key(Some("pid")), ProcessSort::PidAsc);
    assert_eq!(ProcessSort::from_key(Some("mem")), ProcessSort::CpuDesc);
    assert_eq!(ProcessSort::from_key(None), ProcessSort::CpuDesc);
    assert_eq!(process_header(20, None), "Processes (top 20 by cpu):\n  PID      CPU%    RSS          Name\n");
    assert_eq!(process_header(5, Some("rss")), "Processes (top 5 by rss):\n  PID      CPU%    RSS          Name\n");
    assert_eq!(bar_label(&r[1]), "bash (10)");
}

#[test]
fn process_churn_counts_sets() {
    assert_eq!(process_churn(&vec![], &vec![1, 2]), None);
    assert_eq!(process_churn(&vec![1, 2, 3], &vec![2, 3, 4, 4, 5]), Some((2, 1)));
    assert_eq!(process_churn(&vec![7, 7], &vec![7]), Some((0, 0)));
}

#[test]
fn connector_summary_and_report() {
    let summary = ConnectorSummary {
        entries: vec![
            ConnectorHealth { name: "PeerWeave".into(), status: ConnectorStatus::Connecting, detail: None },
            ConnectorHealth {
                name: "EVRUS".into(),
                status: ConnectorStatus::Failed("down".into()),
                detail: Some("down".into()),
            },
        ],
    };
    assert!(summary.any_active());
    assert_eq!(summary.health_for("evrus").unwrap().name, "EVRUS");
    assert!(summary.health_for("nope").is_none());
    assert_eq!(
        connectors_report(&summary),
        "Connector status:\n  PeerWeave \u{2014} Connecting\n  EVRUS \u{2014} Failed(\"down\") (down)\n"
    );
    assert_eq!(
        connectors_report(&ConnectorSummary { entries: vec![] }),
        "No connectors configured. Set MANTICORE_PEERWEAVE_ENABLED=true or MANTICORE_EVRUS_ENABLED=true."
    );
    let idle = ConnectorSummary {
        entries: vec![ConnectorHealth { name: "x".into(), status: ConnectorStatus::Disabled, detail: None }],
    };
    assert!(!idle.any_active());
    assert_eq!(status_debug(&ConnectorStatus::Degraded("a \"b\"".into())), "Degraded(\"a \\\"b\\\"\")");
    assert_eq!(ConnectorStatus::Failed("x".into()).display_text(), "FAILED: x");
    assert_eq!(ConnectorStatus::Healthy.display_text(), "HEALTHY");
}

#[test]
fn connector_health_from_probes() {
    let ok = peerweave_health(Ok(()), true);
    assert_eq!(ok.status.label(), "HEALTHY");
    assert!(ok.detail.unwrap().starts_with("publish requested"));
    assert!(peerweave_health(Ok(()), false).detail.is_none());
    let bad = peerweave_health(Err("timeout".into()), false);
    assert_eq!(bad.status.detail(), Some("timeout"));
    assert_eq!(bad.detail.as_deref(), Some("timeout"));
    let ev = evrus_health(Err("dns".into()));
    assert_eq!(ev.name, "EVRUS");
    assert_eq!(ev.status.label(), "FAILED");
    assert!(evrus_health(Ok(())).detail.is_none());
}

#[test]
fn connector_wizard_blocks() {
    assert_eq!(wizard_default_url(0), "http://localhost:3200/graphql");
    assert_eq!(wizard_default_url(1), "http://localhost:8790");
    assert_eq!(wizard_default_url(2), "9462");
    assert_eq!(
        wizard_env_block(0, "u", "", "s"),
        "MANTICORE_PEERWEAVE_ENABLED=true\nMANTICORE_PEERWEAVE_GRAPHQL_URL=u\nMANTICORE_PEERWEAVE_PUBLISH_ENABLED=true\nMANTICORE_PEERWEAVE_PUBLISH_SPACE_ID=s\n"
    );
    assert_eq!(
        wizard_env_block(0, "u", "t", ""),
        "MANTICORE_PEERWEAVE_ENABLED=true\nMANTICORE_PEERWEAVE_GRAPHQL_URL=u\nMANTICORE_PEERWEAVE_CAP_TOKEN=t\n"
    );
    assert_eq!(
        wizard_env_block(1, "http://id", "jwt", "ignored"),
        "MANTICORE_EVRUS_ENABLED=true\nMANTICORE_EVRUS_OIDC_URL=http://id\nMANTICORE_EVRUS_JWT=jwt\n"
    );
    assert_eq!(
        wizard_env_block(2, "9000", "x", "y"),
        "MANTICORE_EVENT_STREAM_ENABLED=true\nMANTICORE_EVENT_STREAM_PORT=9000\n"
    );
}

#[test]
fn session_setup_from_connectors() {
    let mut evrus = EvrusConfig {
        oidc_url: "http://id".into(),
        jwt: None,
        anchor_enabled: true,
        anchor_interval_secs: 60,
        rpc_url: Some("http://rpc".into()),
        rpc_user: Some("u".into()),
        rpc_pass: Some("p".into()),
    };
    let cfg = ConnectorConfig { peerweave: None, evrus: Some(evrus.clone()) };
    let a = anchor_config(&cfg).unwrap();
    assert_eq!((a.rpc_url.as_str(), a.rpc_user.as_str(), a.rpc_pass.as_str()), ("http://rpc", "u", "p"));
    assert_eq!(anchor_interval_secs(&cfg), 60);
    assert_eq!(connector_poll_ms(&cfg), 5000);
    evrus.rpc_pass = None;
    assert!(anchor_config(&ConnectorConfig { peerweave: None, evrus: Some(evrus.clone()) }).is_none());
    evrus.rpc_pass = Some("p".into());
    evrus.anchor_enabled = false;
    assert!(anchor_config(&ConnectorConfig { peerweave: None, evrus: Some(evrus) }).is_none());
    let none = ConnectorConfig {
        peerweave: Some(PeerWeaveConfig { graphql_url: "g".into(), cap_token: None, poll_ms: 750 }),
        evrus: None,
    };
    assert!(anchor_config(&none).is_none());
    assert_eq!(anchor_interval_secs(&none), 300);
    assert_eq!(connector_poll_ms(&none), 750);
    assert!(helper_in_subprocess("SubProcess"));
    assert!(!helper_in_subprocess("embedded"));
}

fn disk(name: &str, r: u64, w: u64) -> DiskMetrics {
    DiskMetrics { device: name.to_string(), read_bytes_per_sec: r, write_bytes_per_sec: w }
}

#[test]
fn device_panels_run_busiest_first() {
    let rows = sort_panel_rows(vec![disk("a", 1, 1), disk("b", 5, 0), disk("c", 0, 2), disk("d", u64::MAX, 1)]);
    let names: Vec<&str> = rows.iter().map(|d| d.device.as_str()).collect();
    assert_eq!(names, vec!["d", "b", "c", "a"]);
    assert_eq!(disk_panel_heading(&vec![]), "No disk devices in this snapshot.");
    assert_eq!(
        disk_panel_heading(&vec![disk("a", 1024, 512), disk("b", 0, 512)]),
        "All devices by R+W throughput (2.00 KiB combined) \u{2014} 2 devices."
    );
    assert_eq!(network_panel_heading(&vec![]), "No network interfaces in this snapshot.");
    let nics = vec![NetworkMetrics { interface: "eth0".into(), rx_bytes_per_sec: 10, tx_bytes_per_sec: 5 }];
    assert_eq!(network_panel_heading(&nics), "All interfaces by RX+TX (15 B combined) \u{2014} 1 interfaces.");
}

fn step(s: &PaletteState, e: PaletteEvent) -> (PaletteState, PaletteAction) {
    palette_step(s, e)
}

fn line(text: &str) -> PaletteEvent {
    PaletteEvent::Line { text: text.to_string(), parsed: parse_command(text) }
}

#[test]
fn palette_kill_passes_both_checks_twice_and_the_phrase() {
    let s = palette_start();
    let (s, a) = step(&s, line(" kill 42 "));
    assert!(matches!(a, PaletteAction::CheckAuth(CommandAction::KillProcess { pid: 42 })));
    let (s, a) = step(&s, PaletteEvent::AuthAnswer(Ok(())));
    assert!(matches!(a, PaletteAction::CheckPolicy(CommandAction::KillProcess { pid: 42 })));
    let (s, a) = step(&s, PaletteEvent::PolicyAnswer(Ok(PolicyDecision { policy_hash: None })));
    match a {
        PaletteAction::AskConfirmation { pid, phrase } => {
            assert_eq!(pid, 42);
            assert_eq!(phrase, "KILL 42");
        }
        _ => panic!("expected a confirmation request"),
    }
    assert_eq!(s.pending_kill, Some(42));
    let (s, a) = step(&s, PaletteEvent::Confirmation("kill 42".into()));
    assert!(matches!(a, PaletteAction::Reply { ref text, record: None } if text == "Confirmation mismatch."));
    assert_eq!(s.pending_kill, Some(42));
    let (s, a) = step(&s, PaletteEvent::Confirmation(" KILL 42 ".into()));
    assert!(matches!(a, PaletteAction::CheckAuth(CommandAction::KillProcess { pid: 42 })));
    assert_eq!(s.pending_kill, None);
    let (s, a) = step(&s, PaletteEvent::AuthAnswer(Ok(())));
    assert!(matches!(a, PaletteAction::CheckPolicy(_)));
    let (s, a) = step(&s, PaletteEvent::PolicyAnswer(Ok(PolicyDecision { policy_hash: Some("h".into()) })));
    match a {
        PaletteAction::Execute { action: CommandAction::KillProcess { pid: 42 }, policy_hash, record } => {
            assert_eq!(policy_hash.as_deref(), Some("h"));
            assert_eq!(record, "kill 42");
        }
        _ => panic!("expected the kill to run"),
    }
    assert!(matches!(s.stage, PaletteStage::Idle));
}

#[test]
fn palette_refusals_are_audited_and_reads_answered() {
    let s = palette_start();
    let (s, a) = step(&s, line("renice 5 77"));
    assert!(matches!(a, PaletteAction::CheckAuth(_)));
    let (s, a) = step(&s, PaletteEvent::AuthAnswer(Err("authentication locked: retry in 7s".into())));
    match a {
        PaletteAction::AuditDenial { source, reason, .. } => {
            assert_eq!(source, DenialSource::Auth);
            assert_eq!(reason, "authentication locked: retry in 7s");
        }
        _ => panic!("expected an audited refusal"),
    }
    let (s, a) = step(&s, line("renice 5 77"));
    assert!(matches!(a, PaletteAction::CheckAuth(_)));
    let (s, _) = step(&s, PaletteEvent::AuthAnswer(Ok(())));
    let (s, a) = step(&s, PaletteEvent::PolicyAnswer(Err("policy denied: cooldown".into())));
    assert!(matches!(a, PaletteAction::AuditDenial { source: DenialSource::Policy, .. }));
    let (s, a) = step(&s, line("show disk"));
    assert!(matches!(a, PaletteAction::ReadOnly(CommandAction::ShowDisk)));
    let (s, a) = step(&s, PaletteEvent::ReadOnlyAnswer(Some("Disk throughput:\n".into())));
    assert!(matches!(a, PaletteAction::Reply { record: Some(ref r), .. } if r == "show disk"));
    let (s, a) = step(&s, line("show | rm"));
    assert!(matches!(a, PaletteAction::Reply { ref text, record: None } if text.starts_with("Invalid: ")));
    let (s, a) = step(&s, PaletteEvent::AuthAnswer(Ok(())));
    assert!(matches!(a, PaletteAction::Nothing));
    let (_, a) = step(&s, PaletteEvent::Cancel);
    assert!(matches!(a, PaletteAction::Nothing));
}

#[test]
fn palette_cancel_drops_the_pending_kill() {
    let s = PaletteState { stage: PaletteStage::Idle, pending_kill: Some(9) };
    let (s, a) = step(&s, PaletteEvent::Cancel);
    assert!(matches!(a, PaletteAction::Reply { ref text, .. } if text == "Action canceled."));
    assert_eq!(s.pending_kill, None);
}

#[test]
fn periodic_tasks_follow_their_intervals() {
    let cfg = PollConfig {
        has_connectors: true,
        connector_interval_ms: 5000,
        anchoring: true,
        anchor_interval_ms: 300_000,
        history_enabled: false,
    };
    let first = PollClock { since_connectors_ms: None, since_anchor_ms: None, since_history_probe_ms: None };
    assert_eq!(due_tasks(&first, &cfg), PollTasks { poll_connectors: true, anchor: true, probe_history: false });
    let later = PollClock { since_connectors_ms: Some(4999), since_anchor_ms: Some(300_000), since_history_probe_ms: Some(1) };
    assert_eq!(due_tasks(&later, &cfg), PollTasks { poll_connectors: false, anchor: true, probe_history: false });
    let none = PollConfig { has_connectors: false, anchoring: false, history_enabled: true, ..cfg };
    assert_eq!(
        due_tasks(&PollClock { since_history_probe_ms: Some(30_000), ..later }, &none),
        PollTasks { poll_connectors: false, anchor: false, probe_history: true }
    );
}

#[test]
fn help_aliases_and_pages() {
    for (a, b) in [("command", "commands"), ("configuration", "config"), ("pw", "peerweave"), ("stream", "sse")] {
        assert_eq!(help_text(Some(a)), help_text(Some(b)));
    }
    let topics = ["commands", "config", "connectors", "peerweave", "evrus", "auth", "alerts", "audit", "sse", "profiles"];
    let pages: Vec<String> = topics.iter().map(|t| help_text(Some(t))).collect();
    for i in 0..pages.len() {
        assert!(!pages[i].starts_with("Unknown topic"));
        assert_ne!(pages[i], help_text(None));
        for j in i + 1..pages.len() {
            assert_ne!(pages[i], pages[j]);
        }
    }
    assert!(help_text(Some("commands")).starts_with("COMMANDS — detailed reference"));
    assert!(help_text(None).starts_with("Manticore Sentinel — Command Palette"));
}
