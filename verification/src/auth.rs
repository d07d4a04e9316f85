//! Role-based access control and the token check in front of destructive actions.
use vstd::prelude::*;

use crate::text::{ascii_lower, lower_char, lower_str, trim, trim_str, vec_eq_lit, chars_of, vec_eq};

verus! {

broadcast use vstd::string::group_string_axioms;

/// How operators are authenticated.
#[derive(Debug, Clone, Copy, PartialEq, Eq, Structural)]
pub enum AuthMode {
    Local,
    Token,
    Evrus,
}

impl AuthMode {
    pub open spec fn name(self) -> Seq<char> {
        match self {
            AuthMode::Local => "local"@,
            AuthMode::Token => "token"@,
            AuthMode::Evrus => "evrus"@,
        }
    }

    /// The mode that a lowercased setting names.
    pub open spec fn from_name(s: Seq<char>) -> Option<AuthMode> {
        if s == "local"@ {
            Some(AuthMode::Local)
        } else if s == "token"@ {
            Some(AuthMode::Token)
        } else if s == "evrus"@ {
            Some(AuthMode::Evrus)
        } else {
            None
        }
    }

    pub fn as_str(self) -> (r: &'static str)
        ensures
            r@ == self.name(),
    {
        match self {
            AuthMode::Local => "local",
            AuthMode::Token => "token",
            AuthMode::Evrus => "evrus",
        }
    }

    /// Reads a mode from a setting, without regard to ASCII case.
    pub fn from_env(raw: &str) -> (r: Option<AuthMode>)
        ensures
            r == AuthMode::from_name(ascii_lower(raw@)),
    {
        let low = lower_str(raw);
        if vec_eq_lit(&low, "local") {
            Some(AuthMode::Local)
        } else if vec_eq_lit(&low, "token") {
            Some(AuthMode::Token)
        } else if vec_eq_lit(&low, "evrus") {
            Some(AuthMode::Evrus)
        } else {
            None
        }
    }
}

/// What an operator may do.
#[derive(Debug, Clone, Copy, PartialEq, Eq, Structural)]
pub enum Role {
    Viewer,
    Operator,
    Admin,
}

impl Role {
    pub open spec fn name(self) -> Seq<char> {
        match self {
            Role::Viewer => "viewer"@,
            Role::Operator => "operator"@,
            Role::Admin => "admin"@,
        }
    }

    /// The role that a lowercased setting names.
    pub open spec fn from_name(s: Seq<char>) -> Option<Role> {
        if s == "viewer"@ {
            Some(Role::Viewer)
        } else if s == "operator"@ {
            Some(Role::Operator)
        } else if s == "admin"@ {
            Some(Role::Admin)
        } else {
            None
        }
    }

    pub fn as_str(self) -> (r: &'static str)
        ensures
            r@ == self.name(),
    {
        match self {
            Role::Viewer => "viewer",
            Role::Operator => "operator",
            Role::Admin => "admin",
        }
    }

    /// Reads a role from a setting, without regard to ASCII case.
    pub fn from_env(raw: &str) -> (r: Option<Role>)
        ensures
            r == Role::from_name(ascii_lower(raw@)),
    {
        let low = lower_str(raw);
        if vec_eq_lit(&low, "viewer") {
            Some(Role::Viewer)
        } else if vec_eq_lit(&low, "operator") {
            Some(Role::Operator)
        } else if vec_eq_lit(&low, "admin") {
            Some(Role::Admin)
        } else {
            None
        }
    }
}

/// The operations that roles grant.
#[derive(Debug, Clone, Copy, PartialEq, Eq, Structural)]
pub enum Permission {
    ViewSystemMetrics,
    KillProcess,
    ReniceProcess,
}

impl Permission {
    pub open spec fn name(self) -> Seq<char> {
        match self {
            Permission::ViewSystemMetrics => "ViewSystemMetrics"@,
            Permission::KillProcess => "KillProcess"@,
            Permission::ReniceProcess => "ReniceProcess"@,
        }
    }

    /// The name of the permission, as `{:?}` prints it.
    pub fn as_str(self) -> (r: &'static str)
        ensures
            r@ == self.name(),
    {
        match self {
            Permission::ViewSystemMetrics => "ViewSystemMetrics",
            Permission::KillProcess => "KillProcess",
            Permission::ReniceProcess => "ReniceProcess",
        }
    }
}

/// The mode and role of the operator at the console.
#[derive(Debug, Clone, Copy)]
pub struct AuthContext {
    pub mode: AuthMode,
    pub role: Role,
}

/// The access rule: an admin in token mode may do nothing; otherwise a
/// viewer may only view, an operator may also renice, and an admin may do
/// everything.
pub open spec fn spec_allows(ctx: AuthContext, permission: Permission) -> bool {
    if ctx.mode == AuthMode::Token && ctx.role == Role::Admin {
        false
    } else {
        match ctx.role {
            Role::Viewer => permission == Permission::ViewSystemMetrics,
            Role::Operator => permission == Permission::ViewSystemMetrics || permission
                == Permission::ReniceProcess,
            Role::Admin => true,
        }
    }
}

impl AuthContext {
    pub fn allows(self, permission: Permission) -> (r: bool)
        ensures
            r == spec_allows(self, permission),
    {
        if self.mode == AuthMode::Token && self.role == Role::Admin {
            return false;
        }
        match self.role {
            Role::Viewer => permission == Permission::ViewSystemMetrics,
            Role::Operator => permission == Permission::ViewSystemMetrics || permission
                == Permission::ReniceProcess,
            Role::Admin => true,
        }
    }
}

/// When a shared token was issued and how long it stays valid.
#[derive(Debug, Clone, Copy)]
pub struct TokenLifecycle {
    pub issued_at: u64,
    pub ttl_secs: u64,
    pub grace_secs: u64,
}

/// The authenticator: the context together with the expected token.
#[derive(Debug, Clone)]
pub struct AuthGate {
    context: AuthContext,
    token_secret: Option<String>,
    token_lifecycle: Option<TokenLifecycle>,
}

pub open spec fn opt_str_view(o: Option<&str>) -> Option<Seq<char>> {
    match o {
        Some(s) => Some(s@),
        None => None,
    }
}

pub open spec fn unit_result_view(r: Result<(), String>) -> Result<(), Seq<char>> {
    match r {
        Ok(()) => Ok(()),
        Err(e) => Err(e@),
    }
}

/// `u64::saturating_add`.
pub open spec fn sat_add(a: u64, b: u64) -> int {
    if a + b > u64::MAX {
        u64::MAX as int
    } else {
        a + b
    }
}

/// The authenticator's answer to a submitted token at time `now` (seconds since the
/// epoch). Only token mode checks anything: the server must hold a token,
/// one must be submitted, non-blank, equal to it after trimming, and — when
/// a lifecycle is set — neither issued in the future nor older than its
/// time to live plus the grace period.
pub open spec fn spec_verify(
    mode: AuthMode,
    secret: Option<Seq<char>>,
    lifecycle: Option<TokenLifecycle>,
    submitted: Option<Seq<char>>,
    now: u64,
) -> Result<(), Seq<char>> {
    if mode != AuthMode::Token {
        Ok(())
    } else {
        match secret {
            None => Err("authentication failed: token mode is missing server token"@),
            Some(sec) => match submitted {
                None => Err("authentication failed: token required"@),
                Some(sub) => if trim(sub).len() == 0 {
                    Err("authentication failed: token required"@)
                } else if trim(sub) != sec {
                    Err("authentication failed: invalid token"@)
                } else {
                    match lifecycle {
                        None => Ok(()),
                        Some(l) => if now < l.issued_at {
                            Err("authentication failed: token issue time is in the future"@)
                        } else if now - l.issued_at > sat_add(l.ttl_secs, l.grace_secs) {
                            Err("authentication failed: token expired"@)
                        } else {
                            Ok(())
                        },
                    }
                },
            },
        }
    }
}

impl AuthGate {
    pub closed spec fn context_spec(&self) -> AuthContext {
        self.context
    }

    pub closed spec fn secret_spec(&self) -> Option<Seq<char>> {
        match self.token_secret {
            Some(s) => Some(s@),
            None => None,
        }
    }

    pub closed spec fn lifecycle_spec(&self) -> Option<TokenLifecycle> {
        self.token_lifecycle
    }

    /// The authenticator's answer at time `now`.
    pub open spec fn answer(&self, submitted: Option<Seq<char>>, now: u64) -> Result<(), Seq<char>> {
        spec_verify(
            self.context_spec().mode,
            self.secret_spec(),
            self.lifecycle_spec(),
            submitted,
            now,
        )
    }

    pub fn new(
        context: AuthContext,
        token_secret: Option<String>,
        token_lifecycle: Option<TokenLifecycle>,
    ) -> (g: AuthGate)
        ensures
            g.context_spec() == context,
            g.secret_spec() == match token_secret {
                Some(s) => Some(s@),
                None => None::<Seq<char>>,
            },
            g.lifecycle_spec() == token_lifecycle,
    {
        AuthGate { context, token_secret, token_lifecycle }
    }

    pub fn context(&self) -> (r: AuthContext)
        ensures
            r == self.context_spec(),
    {
        self.context
    }

    /// Checks a submitted token as the authenticator does at time `now`.
    pub fn verify_submission_at(&self, submitted_token: Option<&str>, now: u64) -> (r: Result<
        (),
        String,
    >)
        ensures
            unit_result_view(r) == self.answer(opt_str_view(submitted_token), now),
    {
        if self.context.mode != AuthMode::Token {
            return Ok(());
        }
        let secret = match &self.token_secret {
            None => {
                return Err("authentication failed: token mode is missing server token".to_owned());
            },
            Some(s) => s,
        };
        let submitted = match submitted_token {
            None => {
                return Err("authentication failed: token required".to_owned());
            },
            Some(s) => s,
        };
        let t = trim_str(submitted);
        let tv = chars_of(t);
        if tv.len() == 0 {
            return Err("authentication failed: token required".to_owned());
        }
        let sv = chars_of(secret.as_str());
        if !vec_eq(&tv, &sv) {
            return Err("authentication failed: invalid token".to_owned());
        }
        match self.token_lifecycle {
            None => Ok(()),
            Some(lifecycle) => {
                if now < lifecycle.issued_at {
                    return Err(
                        "authentication failed: token issue time is in the future".to_owned(),
                    );
                }
                let age_secs = now - lifecycle.issued_at;
                let max_age = lifecycle.ttl_secs.saturating_add(lifecycle.grace_secs);
                if age_secs > max_age {
                    return Err("authentication failed: token expired".to_owned());
                }
                Ok(())
            },
        }
    }

    /// Checks a submitted token against the authenticator at the current time.
    pub fn verify_submission(&self, submitted_token: Option<&str>) -> (r: Result<(), String>)
        ensures
            exists|now: u64|
                unit_result_view(r) == #[trigger] self.answer(opt_str_view(submitted_token), now),
    {
        let now = crate::audit::now_ts();
        let r = self.verify_submission_at(submitted_token, now);
        r
    }
}

// ---------------------------------------------------------------------------
// Laws of access control
// ---------------------------------------------------------------------------

/// In token mode an admin is granted nothing, so no destructive action.
pub proof fn law_token_admin_is_denied(p: Permission)
    ensures
        !spec_allows(AuthContext { mode: AuthMode::Token, role: Role::Admin }, p),
{
}

/// A viewer may view and do nothing else.
pub proof fn law_viewer_is_read_only(mode: AuthMode, p: Permission)
    ensures
        spec_allows(AuthContext { mode, role: Role::Viewer }, p) <==> p
            == Permission::ViewSystemMetrics,
{
}

/// Only an admin outside token mode may kill a process.
pub proof fn law_only_admin_kills(ctx: AuthContext)
    ensures
        spec_allows(ctx, Permission::KillProcess) <==> (ctx.role == Role::Admin && ctx.mode
            != AuthMode::Token),
{
}

/// Raising the role never takes a permission away, except that an admin
/// in token mode is granted nothing.
pub proof fn law_roles_are_ordered(mode: AuthMode, p: Permission)
    ensures
        spec_allows(AuthContext { mode, role: Role::Viewer }, p) ==> spec_allows(
            AuthContext { mode, role: Role::Operator },
            p,
        ),
        mode != AuthMode::Token ==> (spec_allows(AuthContext { mode, role: Role::Operator }, p)
            ==> spec_allows(AuthContext { mode, role: Role::Admin }, p)),
{
}

/// Outside token mode the authenticator lets every submission through.
pub proof fn law_no_token_check_outside_token_mode(
    mode: AuthMode,
    secret: Option<Seq<char>>,
    lifecycle: Option<TokenLifecycle>,
    submitted: Option<Seq<char>>,
    now: u64,
)
    requires
        mode != AuthMode::Token,
    ensures
        spec_verify(mode, secret, lifecycle, submitted, now) == Ok::<(), Seq<char>>(()),
{
}

/// In token mode the authenticator lets a submission through only when the server
/// holds a token and the trimmed submission equals it, within its lifetime.
pub proof fn law_token_check_requires_matching_token(
    secret: Option<Seq<char>>,
    lifecycle: Option<TokenLifecycle>,
    submitted: Option<Seq<char>>,
    now: u64,
)
    ensures
        spec_verify(AuthMode::Token, secret, lifecycle, submitted, now) is Ok ==> {
            &&& secret is Some
            &&& submitted is Some
            &&& trim(submitted->0).len() > 0
            &&& trim(submitted->0) == secret->0
            &&& (lifecycle matches Some(l) ==> l.issued_at <= now && now - l.issued_at <= sat_add(
                l.ttl_secs,
                l.grace_secs,
            ))
        },
{
}

proof fn lemma_lower_lowercase_literal(s: Seq<char>)
    requires
        forall|i: int| 0 <= i < s.len() ==> !('A' <= #[trigger] s[i] && s[i] <= 'Z'),
    ensures
        ascii_lower(s) == s,
{
    assert(ascii_lower(s) =~= s);
}

/// Reading back the name of a mode gives the mode.
pub proof fn law_auth_mode_name_round_trip(m: AuthMode)
    ensures
        AuthMode::from_name(ascii_lower(m.name())) == Some(m),
{
    reveal_strlit("local");
    reveal_strlit("token");
    reveal_strlit("evrus");
    lemma_lower_lowercase_literal(m.name());
    assert("token"@[0] != "local"@[0]);
    assert("evrus"@[0] != "local"@[0]);
    assert("evrus"@[0] != "token"@[0]);
}

/// Reading back the name of a role gives the role.
pub proof fn law_role_name_round_trip(r: Role)
    ensures
        Role::from_name(ascii_lower(r.name())) == Some(r),
{
    reveal_strlit("viewer");
    reveal_strlit("operator");
    reveal_strlit("admin");
    lemma_lower_lowercase_literal(r.name());
    assert("operator"@[0] != "viewer"@[0]);
    assert("admin"@[0] != "viewer"@[0]);
    assert("admin"@[0] != "operator"@[0]);
}

} // verus!
