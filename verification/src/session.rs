//! What the console derives from its configuration for a session: the
//! trust level, the helper's capabilities, who acts, and the trust badge.
use vstd::prelude::*;

use crate::auth::Role;
use crate::helper::Capability;
use crate::identity::{parse_identity_from_jwt, spec_identity_of_jwt};

verus! {

broadcast use vstd::string::group_string_axioms;

/// A privileged console may have the helper kill and renice; another may
/// have it do neither.
pub open spec fn spec_helper_capabilities(privileged: bool) -> Seq<Capability> {
    if privileged {
        seq![Capability::KillProcess, Capability::ReniceProcess]
    } else {
        Seq::empty()
    }
}

pub fn helper_capabilities(privileged: bool) -> (r: Vec<Capability>)
    ensures
        r@ == spec_helper_capabilities(privileged),
{
    let mut caps: Vec<Capability> = Vec::new();
    if privileged {
        caps.push(Capability::KillProcess);
        caps.push(Capability::ReniceProcess);
    }
    proof {
        if privileged {
            assert(caps@ =~= spec_helper_capabilities(privileged));
        } else {
            assert(caps@ =~= spec_helper_capabilities(privileged));
        }
    }
    caps
}

/// The trust level shown for the console.
pub fn trust_state(privileged: bool) -> (r: &'static str)
    ensures
        r@ == if privileged {
            "PRIVILEGED"@
        } else {
            "UNPRIVILEGED"@
        },
{
    if privileged {
        "PRIVILEGED"
    } else {
        "UNPRIVILEGED"
    }
}

/// The DID that a token names, if it names one.
pub open spec fn jwt_did(evrus_jwt: Option<Seq<char>>) -> Option<Seq<char>> {
    match evrus_jwt {
        Some(jwt) => match spec_identity_of_jwt(jwt) {
            Some((Some(did), _, _)) => Some(did),
            _ => None,
        },
        None => None,
    }
}

fn did_of(evrus_jwt: Option<&str>) -> (r: Option<String>)
    ensures
        match r {
            Some(d) => jwt_did(crate::observability::opt_view(evrus_jwt)) == Some(d@),
            None => jwt_did(crate::observability::opt_view(evrus_jwt)) is None,
        },
{
    match evrus_jwt {
        None => None,
        Some(jwt) => match parse_identity_from_jwt(jwt) {
            Some(id) => id.did,
            None => None,
        },
    }
}

/// Who the console reports as acting: the DID in the EVRUS token when it
/// has one, otherwise `operator`.
pub fn current_actor(evrus_jwt: Option<&str>) -> (r: String)
    ensures
        r@ == match jwt_did(crate::observability::opt_view(evrus_jwt)) {
            Some(did) => did,
            None => "operator"@,
        },
{
    match did_of(evrus_jwt) {
        Some(d) => d,
        None => "operator".to_owned(),
    }
}

/// A role's name in capitals.
pub open spec fn role_caps(r: Role) -> Seq<char> {
    match r {
        Role::Viewer => "VIEWER"@,
        Role::Operator => "OPERATOR"@,
        Role::Admin => "ADMIN"@,
    }
}

/// The trust badge: `LOCAL · <ROLE>` without an EVRUS connection;
/// with one, `EVRUS · ANCHORED · <ROLE>` when anchoring is on, otherwise
/// `EVRUS · <did> · <ROLE>` with the token's DID (`unknown-did` without one).
pub open spec fn spec_trust_badge(
    role: Role,
    evrus_connected: bool,
    evrus_jwt: Option<Seq<char>>,
    anchor_enabled: bool,
) -> Seq<char> {
    if !evrus_connected {
        "LOCAL \u{b7} "@ + role_caps(role)
    } else if anchor_enabled {
        "EVRUS \u{b7} ANCHORED \u{b7} "@ + role_caps(role)
    } else {
        "EVRUS \u{b7} "@ + match jwt_did(evrus_jwt) {
            Some(d) => d,
            None => "unknown-did"@,
        } + " \u{b7} "@ + role_caps(role)
    }
}

fn role_caps_str(r: Role) -> (s: &'static str)
    ensures
        s@ == role_caps(r),
{
    match r {
        Role::Viewer => "VIEWER",
        Role::Operator => "OPERATOR",
        Role::Admin => "ADMIN",
    }
}

pub fn trust_badge_text(
    role: Role,
    evrus_connected: bool,
    evrus_jwt: Option<&str>,
    anchor_enabled: bool,
) -> (r: String)
    ensures
        r@ == spec_trust_badge(
            role,
            evrus_connected,
            crate::observability::opt_view(evrus_jwt),
            anchor_enabled,
        ),
{
    if !evrus_connected {
        let mut s = "LOCAL \u{b7} ".to_owned();
        s.append(role_caps_str(role));
        return s;
    }
    if anchor_enabled {
        let mut s = "EVRUS \u{b7} ANCHORED \u{b7} ".to_owned();
        s.append(role_caps_str(role));
        return s;
    }
    let did = match did_of(evrus_jwt) {
        Some(d) => d,
        None => "unknown-did".to_owned(),
    };
    let mut s = "EVRUS \u{b7} ".to_owned();
    s.append(did.as_str());
    s.append(" \u{b7} ");
    s.append(role_caps_str(role));
    s
}

} // verus!
