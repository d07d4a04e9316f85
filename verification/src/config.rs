//! The runtime configuration: the settings read from the environment,
//! checked and turned into the values the console runs with.
use vstd::prelude::*;

use crate::audit::AnchorConfig;
use crate::auth::{AuthMode, Role, TokenLifecycle};
use crate::text::{
    ascii_lower, chars_of, decimal, lower_str, parse_unsigned, parse_unsigned_span, trim,
    eq_ignore_case, str_eq_ignore_case, trim_str, u64_to_decimal, utf8_len, utf8_len_exceeds,
    vec_eq_lit,
};

verus! {

broadcast use vstd::string::group_string_axioms;

#[derive(Debug, Clone)]
pub struct PeerWeaveConfig {
    pub graphql_url: String,
    pub cap_token: Option<String>,
    pub poll_ms: u64,
}

#[derive(Debug, Clone)]
pub struct EvrusConfig {
    pub oidc_url: String,
    pub jwt: Option<String>,
    pub anchor_enabled: bool,
    pub anchor_interval_secs: u64,
    pub rpc_url: Option<String>,
    pub rpc_user: Option<String>,
    pub rpc_pass: Option<String>,
}

#[derive(Debug, Clone)]
pub struct ConnectorConfig {
    pub peerweave: Option<PeerWeaveConfig>,
    pub evrus: Option<EvrusConfig>,
}

/// The loopback HTTP endpoint and the log format.
#[derive(Debug, Clone)]
pub struct ObservabilityConfig {
    pub http_enabled: bool,
    pub http_bind: String,
    pub http_port: u16,
    pub log_json: bool,
}

#[derive(Debug, Clone)]
pub struct RuntimeConfig {
    pub profile: String,
    pub privileged: bool,
    pub helper_mode: String,
    pub refresh_ms: u64,
    pub auth_mode: AuthMode,
    pub role: Role,
    pub auth_token: Option<String>,
    pub token_lifecycle: Option<TokenLifecycle>,
    pub connectors: ConnectorConfig,
    pub observability: ObservabilityConfig,
}

/// The environment variables that the configuration reads, each as it was
/// found (`None` when unset).
#[derive(Debug, Clone)]
pub struct EnvSettings {
    pub profile: Option<String>,
    pub privileged: Option<String>,
    pub helper_mode: Option<String>,
    pub auth_mode: Option<String>,
    pub role: Option<String>,
    pub auth_token: Option<String>,
    pub token_issued_at: Option<String>,
    pub token_ttl_secs: Option<String>,
    pub token_grace_secs: Option<String>,
    pub refresh_ms: Option<String>,
    pub log_json: Option<String>,
    pub peerweave_enabled: Option<String>,
    pub peerweave_graphql_url: Option<String>,
    pub peerweave_cap_token: Option<String>,
    pub peerweave_poll_ms: Option<String>,
    pub evrus_enabled: Option<String>,
    pub evrus_oidc_url: Option<String>,
    pub evrus_jwt: Option<String>,
    pub evrus_anchor_enabled: Option<String>,
    pub evrus_anchor_interval_secs: Option<String>,
    pub evrus_rpc_url: Option<String>,
    pub evrus_rpc_user: Option<String>,
    pub evrus_rpc_pass: Option<String>,
}

impl Default for EnvSettings {
    /// No setting is given.
    fn default() -> (r: EnvSettings)
        ensures
            r.profile is None,
            r.privileged is None,
            r.helper_mode is None,
            r.auth_mode is None,
            r.role is None,
            r.auth_token is None,
            r.token_issued_at is None,
            r.token_ttl_secs is None,
            r.token_grace_secs is None,
            r.refresh_ms is None,
            r.log_json is None,
            r.peerweave_enabled is None,
            r.peerweave_graphql_url is None,
            r.peerweave_cap_token is None,
            r.peerweave_poll_ms is None,
            r.evrus_enabled is None,
            r.evrus_oidc_url is None,
            r.evrus_jwt is None,
            r.evrus_anchor_enabled is None,
            r.evrus_anchor_interval_secs is None,
            r.evrus_rpc_url is None,
            r.evrus_rpc_user is None,
            r.evrus_rpc_pass is None,
    {
        EnvSettings {
            profile: None,
            privileged: None,
            helper_mode: None,
            auth_mode: None,
            role: None,
            auth_token: None,
            token_issued_at: None,
            token_ttl_secs: None,
            token_grace_secs: None,
            refresh_ms: None,
            log_json: None,
            peerweave_enabled: None,
            peerweave_graphql_url: None,
            peerweave_cap_token: None,
            peerweave_poll_ms: None,
            evrus_enabled: None,
            evrus_oidc_url: None,
            evrus_jwt: None,
            evrus_anchor_enabled: None,
            evrus_anchor_interval_secs: None,
            evrus_rpc_url: None,
            evrus_rpc_user: None,
            evrus_rpc_pass: None,
        }
    }
}

pub open spec fn ov(o: Option<String>) -> Option<Seq<char>> {
    match o {
        Some(s) => Some(s@),
        None => None,
    }
}

// ---------------------------------------------------------------------------
// Single settings
// ---------------------------------------------------------------------------

/// A boolean setting: `1 true yes on` and `0 false no off`, without regard
/// to ASCII case; anything else is not a boolean.
pub open spec fn spec_bool_word(s: Seq<char>) -> Option<bool> {
    let l = ascii_lower(s);
    if l == "1"@ || l == "true"@ || l == "yes"@ || l == "on"@ {
        Some(true)
    } else if l == "0"@ || l == "false"@ || l == "no"@ || l == "off"@ {
        Some(false)
    } else {
        None
    }
}

pub fn bool_word(s: &str) -> (r: Option<bool>)
    ensures
        r == spec_bool_word(s@),
{
    let l = lower_str(s);
    if vec_eq_lit(&l, "1") || vec_eq_lit(&l, "true") || vec_eq_lit(&l, "yes") || vec_eq_lit(
        &l,
        "on",
    ) {
        Some(true)
    } else if vec_eq_lit(&l, "0") || vec_eq_lit(&l, "false") || vec_eq_lit(&l, "no")
        || vec_eq_lit(&l, "off") {
        Some(false)
    } else {
        None
    }
}

/// A boolean setting with a default when unset; `None` when it is set to
/// something that is not a boolean.
pub open spec fn spec_bool_setting(v: Option<Seq<char>>, default: bool) -> Option<bool> {
    match v {
        None => Some(default),
        Some(s) => spec_bool_word(s),
    }
}

fn bool_setting(v: &Option<String>, default: bool) -> (r: Option<bool>)
    ensures
        r == spec_bool_setting(ov(*v), default),
{
    match v {
        None => Some(default),
        Some(s) => bool_word(s.as_str()),
    }
}

/// An unsigned setting, as `str::parse::<u64>` reads it.
pub open spec fn spec_u64(s: Seq<char>) -> Option<u64> {
    match parse_unsigned(s, u64::MAX as int) {
        Some(v) => Some(v as u64),
        None => None,
    }
}

fn parse_u64(s: &str) -> (r: Option<u64>)
    ensures
        r == spec_u64(s@),
{
    let v = chars_of(s);
    let r = parse_unsigned_span(&v, 0, v.len(), u64::MAX);
    assert(v@.subrange(0, v@.len() as int) =~= v@);
    r
}

/// `u64::clamp`.
pub open spec fn clamp(v: u64, lo: u64, hi: u64) -> u64 {
    if v < lo {
        lo
    } else if v > hi {
        hi
    } else {
        v
    }
}

/// An optional unsigned setting that falls back to a default when unset
/// or unreadable, then is clamped into `lo..=hi`.
pub open spec fn spec_lenient_u64(v: Option<Seq<char>>, default: u64, lo: u64, hi: u64) -> u64 {
    let x = match v {
        Some(s) => match spec_u64(s) {
            Some(n) => n,
            None => default,
        },
        None => default,
    };
    clamp(x, lo, hi)
}

fn lenient_u64(v: &Option<String>, default: u64, lo: u64, hi: u64) -> (r: u64)
    requires
        lo <= hi,
    ensures
        r == spec_lenient_u64(ov(*v), default, lo, hi),
{
    let x = match v {
        Some(s) => match parse_u64(s.as_str()) {
            Some(n) => n,
            None => default,
        },
        None => default,
    };
    if x < lo {
        lo
    } else if x > hi {
        hi
    } else {
        x
    }
}

fn string_or(v: &Option<String>, default: &str) -> (r: String)
    ensures
        r@ == match ov(*v) {
            Some(s) => s,
            None => default@,
        },
{
    match v {
        Some(s) => s.clone(),
        None => default.to_owned(),
    }
}

fn clone_opt(v: &Option<String>) -> (r: Option<String>)
    ensures
        ov(r) == ov(*v),
{
    match v {
        Some(s) => Some(s.clone()),
        None => None,
    }
}

// ---------------------------------------------------------------------------
// Connectors
// ---------------------------------------------------------------------------

pub open spec fn peerweave_view(p: PeerWeaveConfig) -> (Seq<char>, Option<Seq<char>>, u64) {
    (p.graphql_url@, ov(p.cap_token), p.poll_ms)
}

/// The PeerWeave connector when `MANTICORE_PEERWEAVE_ENABLED` is a true
/// boolean (an unreadable value counts as off): its GraphQL URL (default
/// `http://localhost:3200/graphql`), capability token, and poll interval
/// (default 5000 ms, clamped into 1000..=30000).
pub open spec fn spec_peerweave(e: EnvSettings) -> Option<(Seq<char>, Option<Seq<char>>, u64)> {
    if spec_bool_setting(ov(e.peerweave_enabled), false) == Some(true) {
        Some(
            (
                match ov(e.peerweave_graphql_url) {
                    Some(s) => s,
                    None => "http://localhost:3200/graphql"@,
                },
                ov(e.peerweave_cap_token),
                spec_lenient_u64(ov(e.peerweave_poll_ms), 5000, 1000, 30000),
            ),
        )
    } else {
        None
    }
}

/// The EVRUS connector when `MANTICORE_EVRUS_ENABLED` is a true boolean:
/// its OIDC URL (default `http://localhost:8790`), JWT, anchoring switch
/// (unreadable counts as off), anchoring interval (default 300 s, clamped
/// into 30..=86400) and RPC settings.
pub open spec fn spec_evrus_enabled(e: EnvSettings) -> bool {
    spec_bool_setting(ov(e.evrus_enabled), false) == Some(true)
}

pub open spec fn evrus_matches(c: EvrusConfig, e: EnvSettings) -> bool {
    &&& c.oidc_url@ == match ov(e.evrus_oidc_url) {
        Some(s) => s,
        None => "http://localhost:8790"@,
    }
    &&& ov(c.jwt) == ov(e.evrus_jwt)
    &&& c.anchor_enabled == (spec_bool_setting(ov(e.evrus_anchor_enabled), false) == Some(true))
    &&& c.anchor_interval_secs == spec_lenient_u64(ov(e.evrus_anchor_interval_secs), 300, 30, 86400)
    &&& ov(c.rpc_url) == ov(e.evrus_rpc_url)
    &&& ov(c.rpc_user) == ov(e.evrus_rpc_user)
    &&& ov(c.rpc_pass) == ov(e.evrus_rpc_pass)
}

pub open spec fn connectors_match(c: ConnectorConfig, e: EnvSettings) -> bool {
    &&& match c.peerweave {
        Some(p) => spec_peerweave(e) == Some(peerweave_view(p)),
        None => spec_peerweave(e) is None,
    }
    &&& match c.evrus {
        Some(v) => spec_evrus_enabled(e) && evrus_matches(v, e),
        None => !spec_evrus_enabled(e),
    }
}

/// The ecosystem connectors that the settings enable.
pub fn load_connector_config(e: &EnvSettings) -> (r: ConnectorConfig)
    ensures
        connectors_match(r, *e),
{
    let pw_on = bool_setting(&e.peerweave_enabled, false);
    let peerweave = if pw_on == Some(true) {
        Some(
            PeerWeaveConfig {
                graphql_url: string_or(&e.peerweave_graphql_url, "http://localhost:3200/graphql"),
                cap_token: clone_opt(&e.peerweave_cap_token),
                poll_ms: lenient_u64(&e.peerweave_poll_ms, 5000, 1000, 30000),
            },
        )
    } else {
        None
    };
    let ev_on = bool_setting(&e.evrus_enabled, false);
    let evrus = if ev_on == Some(true) {
        let anchor = bool_setting(&e.evrus_anchor_enabled, false);
        Some(
            EvrusConfig {
                oidc_url: string_or(&e.evrus_oidc_url, "http://localhost:8790"),
                jwt: clone_opt(&e.evrus_jwt),
                anchor_enabled: anchor == Some(true),
                anchor_interval_secs: lenient_u64(&e.evrus_anchor_interval_secs, 300, 30, 86400),
                rpc_url: clone_opt(&e.evrus_rpc_url),
                rpc_user: clone_opt(&e.evrus_rpc_user),
                rpc_pass: clone_opt(&e.evrus_rpc_pass),
            },
        )
    } else {
        None
    };
    ConnectorConfig { peerweave, evrus }
}

// ---------------------------------------------------------------------------
// The whole configuration
// ---------------------------------------------------------------------------

/// The role setting, or — when unset — `admin` for a privileged console
/// and `viewer` otherwise.
pub open spec fn role_raw(e: EnvSettings, privileged: bool) -> Seq<char> {
    match ov(e.role) {
        Some(s) => s,
        None => if privileged {
            "admin"@
        } else {
            "viewer"@
        },
    }
}

/// The token lifecycle of token mode: the issue time and the time to live
/// (60..=604800 s) are required integers, the grace period an optional
/// integer of at most 600 s (default 30).
pub open spec fn spec_lifecycle(e: EnvSettings) -> Result<TokenLifecycle, Seq<char>> {
    match ov(e.token_issued_at) {
        None => Err("MANTICORE_AUTH_TOKEN_ISSUED_AT is required"@),
        Some(raw_issued) => match spec_u64(raw_issued) {
            None => Err("MANTICORE_AUTH_TOKEN_ISSUED_AT must be an integer"@),
            Some(issued_at) => match ov(e.token_ttl_secs) {
                None => Err("MANTICORE_AUTH_TOKEN_TTL_SECS is required"@),
                Some(raw_ttl) => match spec_u64(raw_ttl) {
                    None => Err("MANTICORE_AUTH_TOKEN_TTL_SECS must be an integer"@),
                    Some(ttl) => if !(60 <= ttl <= 604800) {
                        Err(
                            "MANTICORE_AUTH_TOKEN_TTL_SECS out of range (60..=604800): "@
                                + decimal(ttl as nat),
                        )
                    } else {
                        let grace = match ov(e.token_grace_secs) {
                            None => Some(30u64),
                            Some(g) => spec_u64(g),
                        };
                        match grace {
                            None => Err("MANTICORE_AUTH_TOKEN_GRACE_SECS must be an integer"@),
                            Some(g) => if g > 600 {
                                Err(
                                    "MANTICORE_AUTH_TOKEN_GRACE_SECS out of range (0..=600): "@
                                        + decimal(g as nat),
                                )
                            } else {
                                Ok(TokenLifecycle { issued_at, ttl_secs: ttl, grace_secs: g })
                            },
                        }
                    },
                },
            },
        },
    }
}

fn lifecycle_from(e: &EnvSettings) -> (r: Result<TokenLifecycle, String>)
    ensures
        match r {
            Ok(l) => spec_lifecycle(*e) == Ok::<TokenLifecycle, Seq<char>>(l),
            Err(m) => spec_lifecycle(*e) == Err::<TokenLifecycle, Seq<char>>(m@),
        },
{
    let issued_at = match &e.token_issued_at {
        None => {
            return Err("MANTICORE_AUTH_TOKEN_ISSUED_AT is required".to_owned());
        },
        Some(s) => match parse_u64(s.as_str()) {
            None => {
                return Err("MANTICORE_AUTH_TOKEN_ISSUED_AT must be an integer".to_owned());
            },
            Some(v) => v,
        },
    };
    let ttl = match &e.token_ttl_secs {
        None => {
            return Err("MANTICORE_AUTH_TOKEN_TTL_SECS is required".to_owned());
        },
        Some(s) => match parse_u64(s.as_str()) {
            None => {
                return Err("MANTICORE_AUTH_TOKEN_TTL_SECS must be an integer".to_owned());
            },
            Some(v) => v,
        },
    };
    if !(60 <= ttl && ttl <= 604800) {
        let mut m = "MANTICORE_AUTH_TOKEN_TTL_SECS out of range (60..=604800): ".to_owned();
        let d = u64_to_decimal(ttl);
        m.append(d.as_str());
        return Err(m);
    }
    let grace = match &e.token_grace_secs {
        None => Some(30u64),
        Some(g) => parse_u64(g.as_str()),
    };
    match grace {
        None => Err("MANTICORE_AUTH_TOKEN_GRACE_SECS must be an integer".to_owned()),
        Some(g) => {
            if g > 600 {
                let mut m = "MANTICORE_AUTH_TOKEN_GRACE_SECS out of range (0..=600): ".to_owned();
                let d = u64_to_decimal(g);
                m.append(d.as_str());
                Err(m)
            } else {
                Ok(TokenLifecycle { issued_at, ttl_secs: ttl, grace_secs: g })
            }
        },
    }
}

/// The refresh interval: an optional integer (default 500 ms) in 100..=5000.
pub open spec fn spec_refresh(e: EnvSettings) -> Result<u64, Seq<char>> {
    let r = match ov(e.refresh_ms) {
        None => Some(500u64),
        Some(s) => spec_u64(s),
    };
    match r {
        None => Err("MANTICORE_REFRESH_MS must be an integer"@),
        Some(v) => if !(100 <= v <= 5000) {
            Err("MANTICORE_REFRESH_MS out of range (100..=5000): "@ + decimal(v as nat))
        } else {
            Ok(v)
        },
    }
}

fn refresh_from(e: &EnvSettings) -> (r: Result<u64, String>)
    ensures
        match r {
            Ok(v) => spec_refresh(*e) == Ok::<u64, Seq<char>>(v),
            Err(m) => spec_refresh(*e) == Err::<u64, Seq<char>>(m@),
        },
{
    let r = match &e.refresh_ms {
        None => Some(500u64),
        Some(s) => parse_u64(s.as_str()),
    };
    match r {
        None => Err("MANTICORE_REFRESH_MS must be an integer".to_owned()),
        Some(v) => {
            if !(100 <= v && v <= 5000) {
                let mut m = "MANTICORE_REFRESH_MS out of range (100..=5000): ".to_owned();
                let d = u64_to_decimal(v);
                m.append(d.as_str());
                Err(m)
            } else {
                Ok(v)
            }
        },
    }
}

/// The settings checked in order: the privileged switch must be a
/// boolean; the helper mode `embedded` (default) or `subprocess`; the auth
/// mode (default `local`) and the role must name one; token mode needs a
/// token of at least 12 bytes (after trimming) and a valid lifecycle; the
/// refresh interval must be valid; and EVRUS mode needs the EVRUS connector
/// with a non-blank JWT. The first failure is reported.
pub open spec fn spec_config_error(e: EnvSettings) -> Option<Seq<char>> {
    let privileged = spec_bool_setting(ov(e.privileged), false);
    let helper_mode = match ov(e.helper_mode) {
        Some(s) => s,
        None => "embedded"@,
    };
    let auth_raw = match ov(e.auth_mode) {
        Some(s) => s,
        None => "local"@,
    };
    let mode = AuthMode::from_name(ascii_lower(auth_raw));
    if privileged is None {
        Some("MANTICORE_PRIVILEGED must be a boolean-like value"@)
    } else if helper_mode != "embedded"@ && helper_mode != "subprocess"@ {
        Some(
            "invalid MANTICORE_HELPER_MODE '"@ + helper_mode
                + "', expected embedded|subprocess"@,
        )
    } else if mode is None {
        Some("invalid MANTICORE_AUTH_MODE '"@ + auth_raw + "', expected local|token|evrus"@)
    } else if Role::from_name(ascii_lower(role_raw(e, privileged->0))) is None {
        Some(
            "invalid MANTICORE_ROLE '"@ + role_raw(e, privileged->0)
                + "', expected viewer|operator|admin"@,
        )
    } else if mode == Some(AuthMode::Token) && ov(e.auth_token) is None {
        Some("MANTICORE_AUTH_TOKEN is required when MANTICORE_AUTH_MODE=token"@)
    } else if mode == Some(AuthMode::Token) && utf8_len(trim(ov(e.auth_token)->0)) < 12 {
        Some("MANTICORE_AUTH_TOKEN must be at least 12 characters"@)
    } else if mode == Some(AuthMode::Token) && spec_lifecycle(e) is Err {
        Some(spec_lifecycle(e)->Err_0)
    } else if spec_refresh(e) is Err {
        Some(spec_refresh(e)->Err_0)
    } else if mode == Some(AuthMode::Evrus) && !spec_evrus_enabled(e) {
        Some("MANTICORE_AUTH_MODE=evrus requires EVRUS connector enabled"@)
    } else if mode == Some(AuthMode::Evrus) && trim(
        match ov(e.evrus_jwt) {
            Some(j) => j,
            None => Seq::empty(),
        },
    ).len() == 0 {
        Some("MANTICORE_AUTH_MODE=evrus requires MANTICORE_EVRUS_JWT"@)
    } else {
        None
    }
}

/// A configuration that the settings produce when they are valid.
pub open spec fn config_matches(c: RuntimeConfig, e: EnvSettings) -> bool {
    let privileged = spec_bool_setting(ov(e.privileged), false)->0;
    let mode = AuthMode::from_name(
        ascii_lower(
            match ov(e.auth_mode) {
                Some(s) => s,
                None => "local"@,
            },
        ),
    )->0;
    &&& c.profile@ == match ov(e.profile) {
        Some(s) => s,
        None => "default"@,
    }
    &&& c.privileged == privileged
    &&& c.helper_mode@ == match ov(e.helper_mode) {
        Some(s) => s,
        None => "embedded"@,
    }
    &&& Ok::<u64, Seq<char>>(c.refresh_ms) == spec_refresh(e)
    &&& c.auth_mode == mode
    &&& Some(c.role) == Role::from_name(ascii_lower(role_raw(e, privileged)))
    &&& ov(c.auth_token) == match ov(e.auth_token) {
        Some(t) => Some(trim(t)),
        None => None,
    }
    &&& (mode == AuthMode::Token ==> Ok::<TokenLifecycle, Seq<char>>(c.token_lifecycle->0)
        == spec_lifecycle(e) && c.token_lifecycle is Some)
    &&& (mode != AuthMode::Token ==> c.token_lifecycle is None)
    &&& connectors_match(c.connectors, e)
    &&& !c.observability.http_enabled
    &&& c.observability.http_bind@ == "127.0.0.1"@
    &&& c.observability.http_port == 9463
    &&& c.observability.log_json == (match ov(e.log_json) {
        Some(s) => spec_bool_word(s) == Some(true),
        None => false,
    })
}

/// Builds the runtime configuration from the environment's settings, or
/// reports the first setting that is wrong.
pub fn build_runtime_config(e: &EnvSettings) -> (r: Result<RuntimeConfig, String>)
    ensures
        match r {
            Ok(c) => spec_config_error(*e) is None && config_matches(c, *e),
            Err(m) => spec_config_error(*e) == Some(m@),
        },
{
    let privileged = match bool_setting(&e.privileged, false) {
        None => {
            return Err("MANTICORE_PRIVILEGED must be a boolean-like value".to_owned());
        },
        Some(b) => b,
    };
    let helper_mode = string_or(&e.helper_mode, "embedded");
    let hv = chars_of(helper_mode.as_str());
    if !vec_eq_lit(&hv, "embedded") && !vec_eq_lit(&hv, "subprocess") {
        let mut m = "invalid MANTICORE_HELPER_MODE '".to_owned();
        m.append(helper_mode.as_str());
        m.append("', expected embedded|subprocess");
        return Err(m);
    }
    let auth_raw = string_or(&e.auth_mode, "local");
    let auth_mode = match AuthMode::from_env(auth_raw.as_str()) {
        None => {
            let mut m = "invalid MANTICORE_AUTH_MODE '".to_owned();
            m.append(auth_raw.as_str());
            m.append("', expected local|token|evrus");
            return Err(m);
        },
        Some(mode) => mode,
    };
    let role_text = match &e.role {
        Some(s) => s.clone(),
        None => if privileged {
            "admin".to_owned()
        } else {
            "viewer".to_owned()
        },
    };
    let role = match Role::from_env(role_text.as_str()) {
        None => {
            let mut m = "invalid MANTICORE_ROLE '".to_owned();
            m.append(role_text.as_str());
            m.append("', expected viewer|operator|admin");
            return Err(m);
        },
        Some(r) => r,
    };
    let auth_token: Option<String> = match &e.auth_token {
        Some(t) => Some(trim_str(t.as_str()).to_owned()),
        None => None,
    };
    let token_lifecycle = if auth_mode == AuthMode::Token {
        match &auth_token {
            None => {
                return Err(
                    "MANTICORE_AUTH_TOKEN is required when MANTICORE_AUTH_MODE=token".to_owned(),
                );
            },
            Some(t) => {
                let tv = chars_of(t.as_str());
                if !utf8_len_exceeds(&tv, 11) {
                    return Err("MANTICORE_AUTH_TOKEN must be at least 12 characters".to_owned());
                }
            },
        }
        match lifecycle_from(e) {
            Err(m) => {
                return Err(m);
            },
            Ok(l) => Some(l),
        }
    } else {
        None
    };
    let refresh_ms = match refresh_from(e) {
        Err(m) => {
            return Err(m);
        },
        Ok(v) => v,
    };
    let connectors = load_connector_config(e);
    if auth_mode == AuthMode::Evrus {
        match &connectors.evrus {
            None => {
                return Err("MANTICORE_AUTH_MODE=evrus requires EVRUS connector enabled".to_owned());
            },
            Some(ev) => {
                let jwt: &str = match &ev.jwt {
                    Some(j) => j.as_str(),
                    None => "",
                };
                proof {
                    reveal_strlit("");
                }
                let jt = trim_str(jwt);
                let jv = chars_of(jt);
                if jv.len() == 0 {
                    return Err("MANTICORE_AUTH_MODE=evrus requires MANTICORE_EVRUS_JWT".to_owned());
                }
            },
        }
    }
    let log_json = match &e.log_json {
        Some(s) => bool_word(s.as_str()) == Some(true),
        None => false,
    };
    Ok(
        RuntimeConfig {
            profile: string_or(&e.profile, "default"),
            privileged,
            helper_mode,
            refresh_ms,
            auth_mode,
            role,
            auth_token,
            token_lifecycle,
            connectors,
            observability: ObservabilityConfig {
                http_enabled: false,
                http_bind: "127.0.0.1".to_owned(),
                http_port: 9463,
                log_json,
            },
        },
    )
}

// ---------------------------------------------------------------------------
// Laws of the configuration
// ---------------------------------------------------------------------------

/// A configuration in token mode always carries a token of at least 12
/// bytes and a lifecycle whose time to live lies in 60..=604800 s and
/// whose grace period is at most 600 s.
pub proof fn law_token_mode_is_fully_configured(e: EnvSettings)
    requires
        spec_config_error(e) is None,
        AuthMode::from_name(
            ascii_lower(
                match ov(e.auth_mode) {
                    Some(s) => s,
                    None => "local"@,
                },
            ),
        ) == Some(AuthMode::Token),
    ensures
        ov(e.auth_token) is Some,
        utf8_len(trim(ov(e.auth_token)->0)) >= 12,
        spec_lifecycle(e) matches Ok(l) && 60 <= l.ttl_secs <= 604800 && l.grace_secs <= 600,
{
}

/// A valid configuration refreshes every 100 to 5000 ms.
pub proof fn law_refresh_interval_in_range(e: EnvSettings)
    requires
        spec_config_error(e) is None,
    ensures
        spec_refresh(e) matches Ok(v) && 100 <= v <= 5000,
{
}

// ---------------------------------------------------------------------------
// What a session sets up from the configuration
// ---------------------------------------------------------------------------

/// The audit trail is anchored when EVRUS anchoring is on and the RPC URL,
/// user and password are all given.
pub open spec fn spec_anchor_config(c: ConnectorConfig) -> Option<(Seq<char>, Seq<char>, Seq<char>)> {
    match c.evrus {
        Some(ev) => if ev.anchor_enabled {
            match (ev.rpc_url, ev.rpc_user, ev.rpc_pass) {
                (Some(u), Some(n), Some(p)) => Some((u@, n@, p@)),
                _ => None,
            }
        } else {
            None
        },
        None => None,
    }
}

pub fn anchor_config(c: &ConnectorConfig) -> (r: Option<AnchorConfig>)
    ensures
        match r {
            Some(a) => spec_anchor_config(*c) == Some((a.rpc_url@, a.rpc_user@, a.rpc_pass@)),
            None => spec_anchor_config(*c) is None,
        },
{
    match &c.evrus {
        Some(ev) => {
            if !ev.anchor_enabled {
                return None;
            }
            match (&ev.rpc_url, &ev.rpc_user, &ev.rpc_pass) {
                (Some(u), Some(n), Some(p)) => Some(
                    AnchorConfig { rpc_url: u.clone(), rpc_user: n.clone(), rpc_pass: p.clone() },
                ),
                _ => None,
            }
        },
        None => None,
    }
}

/// How often the trail's anchoring is considered, in seconds: EVRUS's
/// interval, or five minutes without EVRUS.
pub fn anchor_interval_secs(c: &ConnectorConfig) -> (r: u64)
    ensures
        r == match c.evrus {
            Some(ev) => ev.anchor_interval_secs,
            None => 300,
        },
{
    match &c.evrus {
        Some(ev) => ev.anchor_interval_secs,
        None => 300,
    }
}

/// How often the connectors are polled, in milliseconds: PeerWeave's
/// interval, or five seconds without PeerWeave.
pub fn connector_poll_ms(c: &ConnectorConfig) -> (r: u64)
    ensures
        r == match c.peerweave {
            Some(pw) => pw.poll_ms,
            None => 5000,
        },
{
    match &c.peerweave {
        Some(pw) => pw.poll_ms,
        None => 5000,
    }
}

/// The helper runs as a separate process when the helper mode is
/// `subprocess` (ASCII case ignored), and inside the console otherwise.
pub fn helper_in_subprocess(helper_mode: &str) -> (r: bool)
    ensures
        r == eq_ignore_case(helper_mode@, "subprocess"@),
{
    str_eq_ignore_case(helper_mode, "subprocess")
}

} // verus!
