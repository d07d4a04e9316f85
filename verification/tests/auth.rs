use manticore_sentinel::auth::{AuthContext, AuthGate, AuthMode, Permission, Role, TokenLifecycle};

#[test]
fn viewer_is_read_only() {
    let ctx = AuthContext {
        mode: AuthMode::Local,
        role: Role::Viewer,
    };
    assert!(ctx.allows(Permission::ViewSystemMetrics));
    assert!(!ctx.allows(Permission::KillProcess));
    assert!(!ctx.allows(Permission::ReniceProcess));
}

#[test]
fn operator_can_renice_but_not_kill() {
    let ctx = AuthContext {
        mode: AuthMode::Local,
        role: Role::Operator,
    };
    assert!(ctx.allows(Permission::ViewSystemMetrics));
    assert!(ctx.allows(Permission::ReniceProcess));
    assert!(!ctx.allows(Permission::KillProcess));
}

#[test]
fn token_mode_never_allows_admin_destructive_actions() {
    let ctx = AuthContext {
        mode: AuthMode::Token,
        role: Role::Admin,
    };
    assert!(!ctx.allows(Permission::KillProcess));
    assert!(!ctx.allows(Permission::ReniceProcess));
}

#[test]
fn token_gate_requires_matching_token() {
    let gate = AuthGate::new(
        AuthContext {
            mode: AuthMode::Token,
            role: Role::Operator,
        },
        Some("sentinel-secret".to_string()),
        None,
    );
    let err = gate
        .verify_submission(Some("wrong-secret"))
        .expect_err("mismatch should fail");
    assert!(err.contains("invalid token"));
    gate.verify_submission(Some("sentinel-secret"))
        .expect("matching token should pass");
}

#[test]
fn token_gate_rejects_expired_token() {
    let gate = AuthGate::new(
        AuthContext {
            mode: AuthMode::Token,
            role: Role::Operator,
        },
        Some("sentinel-secret".to_string()),
        Some(TokenLifecycle {
            issued_at: 1,
            ttl_secs: 1,
            grace_secs: 0,
        }),
    );
    let err = gate
        .verify_submission(Some("sentinel-secret"))
        .expect_err("expired token should fail");
    assert!(err.contains("expired"));
}
