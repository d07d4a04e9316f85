use std::sync::mpsc;

use base64::Engine;
use ed25519_dalek::{Signature, SigningKey, Verifier};

use manticore_sentinel::actions::{
    denial_event, helper_reply_text, plan_action, ActionStep, DenialSource,
};
use manticore_sentinel::alerts::{AlertSeverity, AlertStreaks};
use manticore_sentinel::audit::{
    anchor_audit_if_due, anchor_due, anchor_marker_hex, anchor_state_path, default_audit_path,
    lines_from, recent_lines, signing_key_path, AnchorState, AuditEvent,
};
use manticore_sentinel::auth::{AuthContext, AuthGate, AuthMode, Role, TokenLifecycle};
use manticore_sentinel::collectors::{DiskMetrics, NetworkMetrics};
use manticore_sentinel::command::{parse_command, CommandAction};
use manticore_sentinel::config::{build_runtime_config, load_connector_config, EnvSettings};
use manticore_sentinel::connectors::{oidc_discovery_url, ConnectorStatus};
use manticore_sentinel::digest::{hex_bytes, merkle_root_of_payloads, sha256_hex};
use manticore_sentinel::error::{classify_action_error, ErrorCategory};
use manticore_sentinel::helper::{
    kill_outcome, parse_capabilities, plan_request, renice_outcome, request_audit_event,
    serialize_capabilities, Capability, HelperRequest, HelperResponse, HelperStep,
};
use manticore_sentinel::history::{
    default_snapshot_history_path, retention_plan, row_count_from, snapshot_history_path_at,
    RetentionPlan, SnapshotHistoryRetention,
};
use manticore_sentinel::identity::parse_identity_from_jwt;
use manticore_sentinel::observability::{
    authorized, bearer_equals, healthcheck_ok, limit_param, query_param, response_head,
    route_request, split_query, ListenConfig, Route,
};
use manticore_sentinel::policy::{
    host_pattern_matches, ExecutionPolicy, FileSource, InlineSource, SystemActionConstraints,
    SystemActionPolicy,
};
use manticore_sentinel::reports::{
    alerts_report, audit_report, config_report, disk_report, network_report, storage_report,
    AlertLine, ConfigFacts, ConfigWarning, StorageFacts,
};
use manticore_sentinel::lockout::AuthLockout;
use manticore_sentinel::session::{current_actor, helper_capabilities, trust_badge_text, trust_state};
use manticore_sentinel::search::{fts_match_query, tokenize, SearchMode};
use manticore_sentinel::signing::{
    canonical_event_payload, current_merkle_root, decode_signing_key, sign_event, signed_event,
};
use manticore_sentinel::stream::{authorization_value, client_allowed, sse_frame, EventStreamOutput};

fn event(ts: u64, action: &str) -> AuditEvent {
    AuditEvent {
        ts,
        action: action.to_string(),
        target: "system".to_string(),
        result: "ok".to_string(),
        actor: "tester".to_string(),
        sig: None,
        policy_hash: None,
        anchor_txid: None,
        anchor_blockheight: None,
        anchor_merkle_root: None,
    }
}

// ---------------------------------------------------------------------------
// Configuration
// ---------------------------------------------------------------------------

#[test]
fn default_configuration_is_local_viewer() {
    let cfg = build_runtime_config(&EnvSettings::default()).expect("defaults are valid");
    assert_eq!(cfg.profile, "default");
    assert!(!cfg.privileged);
    assert_eq!(cfg.helper_mode, "embedded");
    assert_eq!(cfg.refresh_ms, 500);
    assert_eq!(cfg.auth_mode, AuthMode::Local);
    assert_eq!(cfg.role, Role::Viewer);
    assert!(cfg.token_lifecycle.is_none());
    assert!(cfg.connectors.peerweave.is_none());
    assert!(cfg.connectors.evrus.is_none());
    assert_eq!(cfg.observability.http_bind, "127.0.0.1");
    assert_eq!(cfg.observability.http_port, 9463);
}

#[test]
fn privileged_console_defaults_to_admin() {
    let mut e = EnvSettings::default();
    e.privileged = Some("YES".to_string());
    let cfg = build_runtime_config(&e).expect("valid");
    assert!(cfg.privileged);
    assert_eq!(cfg.role, Role::Admin);
}

#[test]
fn configuration_errors_are_reported() {
    let mut e = EnvSettings::default();
    e.privileged = Some("maybe".to_string());
    assert_eq!(
        build_runtime_config(&e).err().unwrap(),
        "MANTICORE_PRIVILEGED must be a boolean-like value"
    );
    let mut e = EnvSettings::default();
    e.helper_mode = Some("remote".to_string());
    assert_eq!(
        build_runtime_config(&e).err().unwrap(),
        "invalid MANTICORE_HELPER_MODE 'remote', expected embedded|subprocess"
    );
    let mut e = EnvSettings::default();
    e.auth_mode = Some("ldap".to_string());
    assert_eq!(
        build_runtime_config(&e).err().unwrap(),
        "invalid MANTICORE_AUTH_MODE 'ldap', expected local|token|evrus"
    );
    let mut e = EnvSettings::default();
    e.role = Some("root".to_string());
    assert_eq!(
        build_runtime_config(&e).err().unwrap(),
        "invalid MANTICORE_ROLE 'root', expected viewer|operator|admin"
    );
    let mut e = EnvSettings::default();
    e.refresh_ms = Some("50".to_string());
    assert_eq!(
        build_runtime_config(&e).err().unwrap(),
        "MANTICORE_REFRESH_MS out of range (100..=5000): 50"
    );
    let mut e = EnvSettings::default();
    e.refresh_ms = Some("fast".to_string());
    assert_eq!(build_runtime_config(&e).err().unwrap(), "MANTICORE_REFRESH_MS must be an integer");
}

#[test]
fn token_mode_needs_token_and_lifecycle() {
    let mut e = EnvSettings::default();
    e.auth_mode = Some("token".to_string());
    assert_eq!(
        build_runtime_config(&e).err().unwrap(),
        "MANTICORE_AUTH_TOKEN is required when MANTICORE_AUTH_MODE=token"
    );
    e.auth_token = Some("  short  ".to_string());
    assert_eq!(
        build_runtime_config(&e).err().unwrap(),
        "MANTICORE_AUTH_TOKEN must be at least 12 characters"
    );
    e.auth_token = Some("sentinel-secret".to_string());
    assert_eq!(
        build_runtime_config(&e).err().unwrap(),
        "MANTICORE_AUTH_TOKEN_ISSUED_AT is required"
    );
    e.token_issued_at = Some("100".to_string());
    e.token_ttl_secs = Some("30".to_string());
    assert_eq!(
        build_runtime_config(&e).err().unwrap(),
        "MANTICORE_AUTH_TOKEN_TTL_SECS out of range (60..=604800): 30"
    );
    e.token_ttl_secs = Some("3600".to_string());
    e.token_grace_secs = Some("601".to_string());
    assert_eq!(
        build_runtime_config(&e).err().unwrap(),
        "MANTICORE_AUTH_TOKEN_GRACE_SECS out of range (0..=600): 601"
    );
    e.token_grace_secs = None;
    let cfg = build_runtime_config(&e).expect("valid token mode");
    assert_eq!(cfg.auth_token.as_deref(), Some("sentinel-secret"));
    let l = cfg.token_lifecycle.expect("lifecycle");
    assert_eq!((l.issued_at, l.ttl_secs, l.grace_secs), (100, 3600, 30));
}

#[test]
fn evrus_mode_needs_connector_and_jwt() {
    let mut e = EnvSettings::default();
    e.auth_mode = Some("EVRUS".to_string());
    assert_eq!(
        build_runtime_config(&e).err().unwrap(),
        "MANTICORE_AUTH_MODE=evrus requires EVRUS connector enabled"
    );
    e.evrus_enabled = Some("true".to_string());
    e.evrus_jwt = Some("   ".to_string());
    assert_eq!(
        build_runtime_config(&e).err().unwrap(),
        "MANTICORE_AUTH_MODE=evrus requires MANTICORE_EVRUS_JWT"
    );
    e.evrus_jwt = Some("a.b.c".to_string());
    let cfg = build_runtime_config(&e).expect("valid evrus mode");
    assert_eq!(cfg.auth_mode, AuthMode::Evrus);
    let listen = ListenConfig::from_runtime(&cfg);
    assert_eq!(listen.evrus_jwt.as_deref(), Some("a.b.c"));
    assert_eq!(listen.port, 9463);
}

#[test]
fn connectors_follow_their_switches() {
    let mut e = EnvSettings::default();
    e.peerweave_enabled = Some("on".to_string());
    e.peerweave_poll_ms = Some("50".to_string());
    e.evrus_enabled = Some("1".to_string());
    e.evrus_anchor_interval_secs = Some("999999".to_string());
    e.evrus_anchor_enabled = Some("junk".to_string());
    let c = load_connector_config(&e);
    let pw = c.peerweave.expect("peerweave on");
    assert_eq!(pw.graphql_url, "http://localhost:3200/graphql");
    assert_eq!(pw.poll_ms, 1000);
    let ev = c.evrus.expect("evrus on");
    assert_eq!(ev.oidc_url, "http://localhost:8790");
    assert_eq!(ev.anchor_interval_secs, 86400);
    assert!(!ev.anchor_enabled);
}

// ---------------------------------------------------------------------------
// Observability endpoint
// ---------------------------------------------------------------------------

#[test]
fn routes_follow_method_auth_and_path() {
    let get = |path: &str, auth: &str| format!("GET {path} HTTP/1.1\r\nHost: x\r\n{auth}\r\n");
    assert!(matches!(
        route_request("POST / HTTP/1.1\r\n\r\n", AuthMode::Local, None, None),
        Route::MethodNotAllowed
    ));
    assert!(matches!(
        route_request(&get("/metrics", ""), AuthMode::Token, Some("s3cret"), None),
        Route::Unauthorized
    ));
    assert!(matches!(
        route_request(&get("/health", ""), AuthMode::Token, Some("s3cret"), None),
        Route::Health
    ));
    assert!(matches!(
        route_request(&get("/metrics", "Authorization: Bearer s3cret\r\n"), AuthMode::Token, Some("s3cret"), None),
        Route::Metrics
    ));
    match route_request(&get("/api/search?q=nginx&mode=fts&limit=999", ""), AuthMode::Local, None, None) {
        Route::Search { q, mode, limit } => {
            assert_eq!(q, "nginx");
            assert_eq!(mode, SearchMode::Fts);
            assert_eq!(limit, 50);
        }
        other => panic!("unexpected route {other:?}"),
    }
    match route_request(&get("/api/search", ""), AuthMode::Local, None, None) {
        Route::Search { q, mode, limit } => {
            assert_eq!(q, "");
            assert_eq!(mode, SearchMode::Hybrid);
            assert_eq!(limit, 12);
        }
        other => panic!("unexpected route {other:?}"),
    }
    assert!(matches!(
        route_request(&get("/api/metrics/series?limit=2", ""), AuthMode::Local, None, None),
        Route::Series { limit: 8 }
    ));
    assert!(matches!(
        route_request(&get("/api/logs", ""), AuthMode::Local, None, None),
        Route::Logs { limit: 40 }
    ));
    assert!(matches!(route_request(&get("/", ""), AuthMode::Local, None, None), Route::Dashboard));
    assert!(matches!(route_request("", AuthMode::Local, None, None), Route::Dashboard));
    assert!(matches!(
        route_request(&get("/api/connectors", ""), AuthMode::Local, None, None),
        Route::Connectors
    ));
    assert!(matches!(route_request(&get("/nope", ""), AuthMode::Local, None, None), Route::NotFound));
}

#[test]
fn query_helpers() {
    assert_eq!(split_query("/a?b=1&c"), ("/a", "b=1&c"));
    assert_eq!(split_query("/a"), ("/a", ""));
    assert_eq!(query_param("a=1&b=2&b=3", "b"), Some("2"));
    assert_eq!(query_param("a", "a"), None);
    assert_eq!(limit_param("limit=+7", "limit", 12, 1, 50), 7);
    assert_eq!(limit_param("limit=x", "limit", 12, 1, 50), 12);
    assert_eq!(limit_param("limit=0", "limit", 12, 1, 50), 1);
    assert!(bearer_equals(Some("Bearer tok"), Some("tok")));
    assert!(!bearer_equals(Some("bearer tok"), Some("tok")));
    assert!(!bearer_equals(None, Some("tok")));
    assert!(authorized("GET / HTTP/1.1\r\n\r\n", AuthMode::Local, None, None));
    assert!(!authorized("GET / HTTP/1.1\r\n\r\n", AuthMode::Evrus, None, Some("jwt")));
}

#[test]
fn response_heads() {
    assert_eq!(
        response_head(200, "text/plain", 2),
        "HTTP/1.1 200 OK\r\nContent-Type: text/plain\r\nContent-Length: 2\r\nCache-Control: no-store\r\nX-Content-Type-Options: nosniff\r\nX-Frame-Options: DENY\r\nConnection: close\r\n\r\n"
    );
    let h = response_head(401, "text/plain", 12);
    assert!(h.starts_with("HTTP/1.1 401 Unauthorized\r\n"));
    assert!(h.contains("WWW-Authenticate: Bearer realm=\"sentinel\"\r\n"));
    assert!(response_head(500, "x", 0).starts_with("HTTP/1.1 500 Error\r\n"));
    assert!(healthcheck_ok("HTTP/1.1 200 OK\r\n\r\n{}"));
    assert!(healthcheck_ok("{\"ok\":true}"));
    assert!(!healthcheck_ok("HTTP/1.1 503 Error"));
}

// ---------------------------------------------------------------------------
// Event stream
// ---------------------------------------------------------------------------

#[test]
fn event_stream_frames_and_clients() {
    assert_eq!(sse_frame("{\"a\":1}"), "event: telemetry\ndata: {\"a\":1}\n\n");
    assert_eq!(
        authorization_value("Authorization:  Bearer abc \r\n"),
        Some("Bearer abc".to_string())
    );
    assert_eq!(authorization_value("Host: x\r\n"), None);
    assert!(client_allowed(AuthMode::Local, None, None, None));
    assert!(client_allowed(AuthMode::Token, Some("abc"), None, Some("Bearer abc")));
    assert!(!client_allowed(AuthMode::Token, Some("abc"), None, Some("Bearer abd")));
    assert!(!client_allowed(AuthMode::Token, Some("abc"), None, None));
    assert!(!client_allowed(AuthMode::Token, None, None, None));
    assert!(!client_allowed(AuthMode::Token, None, None, Some("Bearer ")));
    assert!(!client_allowed(AuthMode::Evrus, None, None, None));
    assert!(client_allowed(AuthMode::Evrus, None, Some("jwt"), Some("Bearer jwt")));
    let (tx, rx) = mpsc::channel::<String>();
    let out = EventStreamOutput::new(tx);
    out.emit("hello".to_string());
    assert_eq!(rx.recv().unwrap(), "hello");
}

// ---------------------------------------------------------------------------
// Audit trail, signing and anchoring
// ---------------------------------------------------------------------------

#[test]
fn audit_paths() {
    assert_eq!(default_audit_path("/srv"), "/srv/.beads/audit/events.jsonl");
    assert_eq!(signing_key_path("/srv/.beads/audit/events.jsonl"), "/srv/.beads/audit/signing.ed25519");
    assert_eq!(anchor_state_path("events.jsonl"), "anchor_state.json");
    assert_eq!(default_snapshot_history_path("/srv"), "/srv/.beads/state/snapshots.sqlite3");
    assert_eq!(snapshot_history_path_at("/srv", 42), "/srv/.beads/state/snapshots-42.jsonl");
}

#[test]
fn sha256_and_hex() {
    assert_eq!(
        sha256_hex(b"abc"),
        "ba7816bf8f01cfea414140de5dae2223b00361a396177a9cb410ff61f20015ad"
    );
    assert_eq!(hex_bytes(&[0x00, 0x0f, 0xab]), "000fab");
    assert_eq!(merkle_root_of_payloads(&vec![]), None);
    let one = merkle_root_of_payloads(&vec![b"abc".to_vec()]).unwrap();
    assert_eq!(one, sha256_hex(b"abc"));
}

#[test]
fn canonical_payload_sorts_keys() {
    let mut e = event(7, "show_cpu");
    e.policy_hash = Some("ph".to_string());
    e.anchor_blockheight = Some(9);
    e.actor = "a\"b".to_string();
    assert_eq!(
        canonical_event_payload(&e),
        "{\"action\":\"show_cpu\",\"actor\":\"a\\\"b\",\"anchor_blockheight\":9,\"policy_hash\":\"ph\",\"result\":\"ok\",\"target\":\"system\",\"ts\":7}"
    );
}

#[test]
fn events_are_signed_verifiably() {
    let secret = [7u8; 32];
    let e = event(1, "show_cpu");
    let sig = sign_event(&e, &secret);
    let raw = base64::engine::general_purpose::STANDARD.decode(sig.as_bytes()).unwrap();
    let sig = Signature::from_slice(&raw).unwrap();
    let key = SigningKey::from_bytes(&secret);
    key.verifying_key()
        .verify(canonical_event_payload(&e).as_bytes(), &sig)
        .expect("signature verifies");
    let signed = signed_event(e, &secret);
    assert!(signed.sig.is_some());
    let mut pre = event(2, "x");
    pre.sig = Some("kept".to_string());
    assert_eq!(signed_event(pre, &secret).sig.as_deref(), Some("kept"));
}

#[test]
fn signing_keys_are_decoded() {
    let enc = base64::engine::general_purpose::STANDARD.encode([1u8; 32]);
    assert_eq!(decode_signing_key(&enc).unwrap(), vec![1u8; 32]);
    let short = base64::engine::general_purpose::STANDARD.encode([1u8; 8]);
    assert_eq!(decode_signing_key(&short).unwrap_err(), "invalid signing key length");
    assert!(decode_signing_key("***").unwrap_err().starts_with("invalid signing key encoding: "));
}

#[test]
fn merkle_root_of_trail_lines() {
    assert_eq!(current_merkle_root(""), None);
    assert_eq!(current_merkle_root("not json\n"), None);
    let raw = "{\"b\":1,\"a\":2}\nnot json\n{\"c\":3}\n";
    let l1 = sha256_hex(b"{\"a\":2,\"b\":1}");
    let root = current_merkle_root(raw).unwrap();
    assert_ne!(root, l1);
    assert_eq!(
        current_merkle_root("{\"b\":1,\"a\":2}").unwrap(),
        merkle_root_of_payloads(&vec![b"{\"a\":2,\"b\":1}".to_vec()]).unwrap()
    );
    assert_eq!(
        root,
        merkle_root_of_payloads(&vec![b"{\"a\":2,\"b\":1}".to_vec(), b"{\"c\":3}".to_vec()]).unwrap()
    );
}

#[test]
fn trail_line_selection() {
    let raw = "l1\nl2\nl3\n";
    assert_eq!(recent_lines(raw, 2), vec!["l3", "l2"]);
    assert_eq!(recent_lines(raw, 10), vec!["l3", "l2", "l1"]);
    assert_eq!(lines_from(raw, 1), (vec!["l2", "l3"], 3));
    assert_eq!(lines_from(raw, 5), (vec![], 3));
}

#[test]
fn anchoring_is_due_once_per_root() {
    let state = AnchorState::empty();
    let root = Some("abcd".to_string());
    assert!(anchor_due(&root, &state));
    assert!(!anchor_due(&None, &state));
    let (ev, next) = anchor_audit_if_due("op", &root, &state, "tx1", Some(10), 99).expect("due");
    assert_eq!(ev.action, "audit_anchor");
    assert_eq!(ev.anchor_txid.as_deref(), Some("tx1"));
    assert_eq!(next.last_anchor_merkle_root.as_deref(), Some("abcd"));
    assert_eq!(next.last_anchor_ts, Some(99));
    assert!(!anchor_due(&root, &next));
    assert!(anchor_audit_if_due("op", &root, &next, "tx2", None, 100).is_none());
    assert_eq!(anchor_marker_hex("ab"), "73656e74696e656c3a6162");
}

// ---------------------------------------------------------------------------
// Identity
// ---------------------------------------------------------------------------

#[test]
fn identity_is_read_from_jwt_claims() {
    let b64 = |s: &str| base64::engine::general_purpose::URL_SAFE_NO_PAD.encode(s);
    let jwt = format!("{}.{}.sig", b64("{}"), b64("{\"sub\":\"did:x\",\"preferred_username\":\"ann\",\"exp\":5}"));
    let id = parse_identity_from_jwt(&jwt).expect("identity");
    assert_eq!(id.did.as_deref(), Some("did:x"));
    assert_eq!(id.display_name.as_deref(), Some("ann"));
    assert_eq!(id.exp, Some(5));
    let jwt = format!("h.{}", b64("{\"did\":\"d\",\"sub\":\"s\",\"name\":\"N\"}"));
    let id = parse_identity_from_jwt(&jwt).expect("identity");
    assert_eq!(id.did.as_deref(), Some("d"));
    assert_eq!(id.display_name.as_deref(), Some("N"));
    assert_eq!(id.exp, None);
    assert!(parse_identity_from_jwt("nodots").is_none());
    assert!(parse_identity_from_jwt("a.!!!").is_none());
    assert!(parse_identity_from_jwt(&format!("a.{}", b64("not json"))).is_none());
}

// ---------------------------------------------------------------------------
// Actions, policy and helper
// ---------------------------------------------------------------------------

#[test]
fn denials_are_audited() {
    let e = denial_event(&CommandAction::KillProcess { pid: 42 }, DenialSource::Auth, "invalid token", "op", None, 5);
    assert_eq!(e.action, "kill_process");
    assert_eq!(e.target, "pid:42");
    assert_eq!(e.result, "denied: auth_gate: invalid token");
    let e = denial_event(&CommandAction::ShowCpu, DenialSource::Policy, "cooldown", "op", Some("h".into()), 5);
    assert_eq!(e.action, "read_only");
    assert_eq!(e.target, "system");
    assert_eq!(e.result, "denied: policy_gate: cooldown");
    assert_eq!(e.policy_hash.as_deref(), Some("h"));
}

#[test]
fn actions_are_planned() {
    match plan_action(CommandAction::ShowCpu, "op", None, 3) {
        ActionStep::Audited { event, reply } => {
            assert_eq!(event.action, "show_cpu");
            assert_eq!(event.result, "ok: local read action");
            assert_eq!(reply, "Accepted: ShowCpu (local read-only action)");
        }
        other => panic!("unexpected {other:?}"),
    }
    match plan_action(CommandAction::ReniceProcess { pid: 9, nice: 5 }, "op", None, 3) {
        ActionStep::Helper(req) => {
            assert_eq!(req.action, "renice_process");
            assert_eq!((req.pid, req.nice), (9, Some(5)));
        }
        other => panic!("unexpected {other:?}"),
    }
    match plan_action(CommandAction::ShowDisk, "op", None, 3) {
        ActionStep::Reply(t) => assert_eq!(t, "Read-only command handled inline."),
        other => panic!("unexpected {other:?}"),
    }
    assert_eq!(helper_reply_text(&Ok(HelperResponse { ok: true, message: "done".into() })), "OK: done");
    assert_eq!(helper_reply_text(&Ok(HelperResponse { ok: false, message: "no".into() })), "DENIED: no");
    assert_eq!(helper_reply_text(&Err("socket".into())), "Helper error: socket");
}

#[test]
fn policy_evaluation() {
    let ctx = AuthContext { mode: AuthMode::Local, role: Role::Admin };
    let policy = SystemActionPolicy {
        action: "*".to_string(),
        constraints: SystemActionConstraints {
            allowed_roles: vec![],
            require_capability: None,
            deny_on_hosts: vec!["prod-*".to_string()],
            require_confirmation: false,
        },
    };
    let mut p = ExecutionPolicy::new(ctx, Some(policy), Some("{}".to_string()), "prod-db1".to_string());
    let err = p.evaluate_at(&CommandAction::KillProcess { pid: 10 }, None).unwrap_err();
    assert_eq!(err, "policy denied: host matched deny pattern prod-*");
    assert_eq!(p.current_policy_hash(), Some(sha256_hex(b"{}")));
    let mut q = ExecutionPolicy::new(ctx, None, None, "dev".to_string());
    assert!(q.evaluate_at(&CommandAction::KillProcess { pid: 10 }, None).is_ok());
    assert_eq!(
        q.evaluate_at(&CommandAction::KillProcess { pid: 10 }, Some(500)).unwrap_err(),
        "policy denied: kill action in cooldown window"
    );
    assert!(q.evaluate_at(&CommandAction::KillProcess { pid: 10 }, Some(2000)).is_ok());
    q.record(&CommandAction::ShowCpu);
    p.record(&CommandAction::ShowCpu);
    assert!(host_pattern_matches("prod-1", "prod-*"));
    assert!(!host_pattern_matches("dev-1", "prod-*"));
    assert!(host_pattern_matches("dev", "dev"));
}

#[test]
fn policy_warnings() {
    let w = ExecutionPolicy::policy_load_warnings(
        InlineSource::Invalid,
        &FileSource::Unreadable { path: "/x".into() },
        InlineSource::Valid,
        &FileSource::Invalid { path: "/y".into() },
    );
    assert_eq!(
        w,
        vec![
            "MANTICORE_EVRUS_POLICY_JSON contains invalid JSON".to_string(),
            "MANTICORE_EVRUS_POLICY_PATH '/x' not readable".to_string(),
            "MANTICORE_ALERT_POLICY_PATH '/y' contains invalid JSON".to_string(),
        ]
    );
    assert!(ExecutionPolicy::policy_load_warnings(
        InlineSource::Unset,
        &FileSource::Valid { path: "/v".into() },
        InlineSource::Unset,
        &FileSource::Unset
    )
    .is_empty());
}

#[test]
fn helper_decisions() {
    let caps = parse_capabilities(" kill , bogus,renice");
    assert_eq!(caps, vec![Capability::KillProcess, Capability::ReniceProcess]);
    assert_eq!(serialize_capabilities(&caps), "kill,renice");
    assert_eq!(parse_capabilities(&serialize_capabilities(&caps)), caps);
    let req = HelperRequest { action: "kill_process".into(), pid: 1, nice: None };
    match plan_request(&req, &caps) {
        HelperStep::Respond(r) => {
            assert!(!r.ok);
            assert_eq!(r.message, "refusing to signal protected pid");
        }
        _ => panic!("protected pid must be refused"),
    }
    let req = HelperRequest { action: "kill_process".into(), pid: 99, nice: None };
    match plan_request(&req, &[Capability::ReniceProcess]) {
        HelperStep::Respond(r) => assert_eq!(r.message, "missing capability KillProcess"),
        _ => panic!("missing capability must be refused"),
    }
    assert!(matches!(plan_request(&req, &caps), HelperStep::SendSigkill { pid: 99 }));
    let req = HelperRequest { action: "renice_process".into(), pid: 99, nice: Some(25) };
    match plan_request(&req, &caps) {
        HelperStep::Respond(r) => assert_eq!(r.message, "invalid nice value"),
        _ => panic!("bad nice must be refused"),
    }
    let ok = kill_outcome(99, Ok(()));
    assert!(ok.ok);
    assert_eq!(ok.message, "sent SIGKILL to pid 99");
    let bad = renice_outcome(99, 5, Err("EPERM".into()));
    assert!(!bad.ok);
    let ev = request_audit_event(4, &HelperRequest { action: "kill_process".into(), pid: 7, nice: None }, &ok);
    assert_eq!(ev.target, "pid:7");
    assert_eq!(ev.result, "ok: sent SIGKILL to pid 99");
}

#[test]
fn auth_gate_edges() {
    let gate = AuthGate::new(
        AuthContext { mode: AuthMode::Token, role: Role::Operator },
        Some("sentinel-secret".to_string()),
        Some(TokenLifecycle { issued_at: 100, ttl_secs: 60, grace_secs: 10 }),
    );
    assert!(gate.verify_submission_at(Some("sentinel-secret"), 165).is_ok());
    assert!(gate.verify_submission_at(Some("sentinel-secret"), 171).unwrap_err().contains("expired"));
    assert!(gate.verify_submission_at(None, 120).unwrap_err().contains("token required"));
    assert!(gate.verify_submission_at(Some("sentinel-secret"), 50).unwrap_err().contains("future"));
    let local = AuthGate::new(AuthContext { mode: AuthMode::Local, role: Role::Viewer }, None, None);
    assert!(local.verify_submission_at(None, 0).is_ok());
    assert_eq!(AuthMode::from_env("Token"), Some(AuthMode::Token));
    assert_eq!(AuthMode::from_env(" token"), None);
    assert_eq!(Role::from_env("ADMIN"), Some(Role::Admin));
    assert_eq!(AuthMode::Evrus.as_str(), "evrus");
}

// ---------------------------------------------------------------------------
// Reports, history, search, errors, alerts, connectors
// ---------------------------------------------------------------------------

#[test]
fn console_reports() {
    let disks = vec![
        DiskMetrics { device: "sdb".into(), read_bytes_per_sec: 1, write_bytes_per_sec: 0 },
        DiskMetrics { device: "sda".into(), read_bytes_per_sec: 2048, write_bytes_per_sec: 512 },
    ];
    assert_eq!(
        disk_report(disks),
        "Disk throughput:\n  sda R:2.00 KiB/s W:512 B/s\n  sdb R:1 B/s W:0 B/s\n"
    );
    let nets = vec![NetworkMetrics { interface: "eth0".into(), rx_bytes_per_sec: 1536, tx_bytes_per_sec: 0 }];
    assert_eq!(network_report(nets), "Network throughput:\n  eth0 RX:1.50 KiB/s TX:0 B/s\n");
    assert_eq!(alerts_report(&vec![]), "No active alerts.");
    let alerts = vec![AlertLine {
        severity: AlertSeverity::Critical,
        rule_id: "cpu-hot".into(),
        message: "CPU high".into(),
    }];
    assert_eq!(alerts_report(&alerts), "Active alerts:\n  [Critical] cpu-hot \u{2014} CPU high\n");
    assert_eq!(audit_report(&vec![]), "No audit events.");
    assert_eq!(
        audit_report(&vec![event(5, "show_cpu")]),
        "Last 1 audit events:\n  [5] show_cpu \u{2192} system (ok) by tester\n"
    );
    let s = storage_report(StorageFacts {
        audit_entries: 3,
        audit_bytes: 2048,
        audit_max_entries: 100,
        archive_files: 1,
        archive_bytes: 10,
        snapshot_bytes: 0,
        snapshot_max_entries: 50,
        snapshot_max_age_secs: Some(60),
        snapshot_max_bytes: None,
    });
    assert_eq!(
        s,
        "Storage health:\n  audit events:   3 entries, 2.0 KB\n  audit max:      100\n  audit archive:  1 files, 10 B\n  snapshots:      0 B\n  snapshot max:   50\n  snapshot max age: 60s\n  snapshot max bytes: off\n"
    );
}

#[test]
fn retention_plans() {
    let r = SnapshotHistoryRetention { max_entries: 2, max_age_secs: Some(100), max_bytes: Some(1000), slim_records: false };
    assert_eq!(
        retention_plan(r, 50, 10, 4096, 9),
        RetentionPlan { delete_before: Some(0), keep_newest: Some(2), trim_oldest: Some(2) }
    );
    assert_eq!(
        retention_plan(r, 500, 0, 4096, 9),
        RetentionPlan { delete_before: Some(400), keep_newest: Some(2), trim_oldest: None }
    );
    let r = SnapshotHistoryRetention { max_entries: 0, max_age_secs: None, max_bytes: Some(1), slim_records: true };
    assert_eq!(
        retention_plan(r, 5, u64::MAX, 2, 3),
        RetentionPlan { delete_before: None, keep_newest: None, trim_oldest: Some(1) }
    );
    assert_eq!(row_count_from(-3), 0);
    assert_eq!(row_count_from(7), 7);
}

#[test]
fn search_and_errors() {
    assert_eq!(fts_match_query("nginx http"), "nginx* OR http*");
    assert_eq!(tokenize("a bb, c-dd!"), vec!["bb", "dd"]);
    assert_eq!(SearchMode::from_env("Semantic"), SearchMode::Vector);
    assert_eq!(classify_action_error("policy denied: x"), ErrorCategory::Policy);
    assert_eq!(classify_action_error("Helper error: y"), ErrorCategory::Helper);
    assert_eq!(classify_action_error("bad profile"), ErrorCategory::Config);
    assert_eq!(classify_action_error("boom"), ErrorCategory::Runtime);
    assert_eq!(ErrorCategory::Collector.as_str(), "collector");
}

#[test]
fn alert_streaks_fire_after_enough_cycles() {
    let mut s = AlertStreaks::new();
    assert!(!s.observe("mem-warn", true, 2));
    assert!(s.observe("mem-warn", true, 2));
    assert!(!s.observe("mem-warn", false, 2));
    assert!(s.observe("cpu-hot", true, 0));
    assert_eq!(AlertSeverity::Warning.as_str(), "warning");
}

#[test]
fn connector_helpers() {
    assert_eq!(
        oidc_discovery_url("http://id.local//"),
        "http://id.local/.well-known/openid-configuration"
    );
    let s = ConnectorStatus::Failed("down".into());
    assert_eq!(s.label(), "FAILED");
    assert_eq!(s.detail(), Some("down"));
    assert!(!ConnectorStatus::Disabled.is_active());
    let _ = parse_command("show cpu").unwrap();
}

#[test]
fn lockout_after_three_failures() {
    let gate = AuthGate::new(
        AuthContext { mode: AuthMode::Token, role: Role::Operator },
        Some("sentinel-secret".to_string()),
        None,
    );
    let mut lock = AuthLockout::new();
    let t0 = std::time::Instant::now();
    for _ in 0..2 {
        assert!(lock.verify_at(&gate, Some("nope"), 10, 0, t0).unwrap_err().contains("invalid token"));
    }
    assert!(lock.verify_at(&gate, Some("nope"), 10, 0, t0).is_err());
    assert_eq!(
        lock.verify_at(&gate, Some("sentinel-secret"), 10, 2500, t0).unwrap_err(),
        "authentication locked: retry in 7s"
    );
    assert_eq!(
        lock.verify_at(&gate, Some("sentinel-secret"), 10, 9999, t0).unwrap_err(),
        "authentication locked: retry in 1s"
    );
    assert!(lock.verify_at(&gate, Some("sentinel-secret"), 10, 10_000, t0).is_ok());
    assert!(lock.verify_at(&gate, Some("sentinel-secret"), 10, 0, t0).is_ok());
    assert_eq!(current_actor(None), "operator");
    assert_eq!(current_actor(Some("garbage")), "operator");
    let b64 = |s: &str| base64::engine::general_purpose::URL_SAFE_NO_PAD.encode(s);
    assert_eq!(current_actor(Some(&format!("h.{}", b64("{\"did\":\"did:ev:1\"}")))), "did:ev:1");
}

#[test]
fn session_trust_and_badge() {
    assert_eq!(helper_capabilities(true), vec![Capability::KillProcess, Capability::ReniceProcess]);
    assert!(helper_capabilities(false).is_empty());
    assert_eq!(trust_state(true), "PRIVILEGED");
    assert_eq!(trust_state(false), "UNPRIVILEGED");
    assert_eq!(trust_badge_text(Role::Admin, false, None, false), "LOCAL \u{b7} ADMIN");
    assert_eq!(
        trust_badge_text(Role::Viewer, true, None, true),
        "EVRUS \u{b7} ANCHORED \u{b7} VIEWER"
    );
    assert_eq!(
        trust_badge_text(Role::Operator, true, None, false),
        "EVRUS \u{b7} unknown-did \u{b7} OPERATOR"
    );
    let b64 = |s: &str| base64::engine::general_purpose::URL_SAFE_NO_PAD.encode(s);
    let jwt = format!("h.{}.s", b64("{\"did\":\"did:ev:9\"}"));
    assert_eq!(
        trust_badge_text(Role::Operator, true, Some(&jwt), false),
        "EVRUS \u{b7} did:ev:9 \u{b7} OPERATOR"
    );
}

#[test]
fn config_report_lists_settings_and_warnings() {
    let mut facts = ConfigFacts {
        diagnostics: "default".to_string(),
        auth_mode: AuthMode::Token,
        role: Role::Operator,
        privileged: false,
        audit_max_entries: 5000,
        audit_archive: true,
        history_enabled: true,
        history_max: 200,
        history_reset: false,
        history_max_age_secs: Some(3600),
        history_max_bytes: None,
        history_slim: false,
        sse: true,
        warnings: vec![],
    };
    let expected = "Effective configuration:\n  profile:           default\n  auth_mode:         token\n  role:              operator\n  trust:             UNPRIVILEGED\n  audit_max_entries: 5000\n  audit_archive:     true\n  history_enabled:   true\n  history_max:       200\n  history_reset:     false\n  history_max_age:   3600s\n  history_max_bytes: off\n  history_slim:      false\n  sse:               on\n";
    assert_eq!(config_report(&facts), expected);
    facts.warnings.push(ConfigWarning { area: "policy".to_string(), message: "file missing".to_string() });
    assert_eq!(
        config_report(&facts),
        format!("{}\n  Warnings:\n    [policy] file missing\n", expected)
    );
}
