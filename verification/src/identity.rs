//! The operator identity shown in EVRUS mode, read from the claims of its
//! JWT. The token's signature is the identity service's business; the
//! console only displays what the token says.
use vstd::prelude::*;

use base64::Engine;

use crate::config::ov;
use crate::text::{chars_of, split_char, split_char_spans, spans_cut};

verus! {

broadcast use vstd::string::group_string_axioms;

/// What `URL_SAFE_NO_PAD.decode` of the `base64` crate gives for the bytes.
pub uninterp spec fn spec_base64url_decode(data: Seq<u8>) -> Option<Seq<u8>>;

/// `base64::engine::general_purpose::URL_SAFE_NO_PAD.decode`: the bytes
/// that URL-safe, unpadded base64 text stands for, or none when the text
/// is not such base64. The contract names the result; the alphabet and
/// the rules on trailing bits are the crate's.
#[verifier::external_body]
fn base64url_decode(data: &[u8]) -> (r: Option<Vec<u8>>)
    ensures
        match r {
            Some(v) => spec_base64url_decode(data@) == Some(v@),
            None => spec_base64url_decode(data@) is None,
        },
{
    base64::engine::general_purpose::URL_SAFE_NO_PAD.decode(data).ok()
}

/// The claims of a token that the console reads.
#[derive(Debug, Clone)]
pub struct JwtClaims {
    pub did: Option<String>,
    pub sub: Option<String>,
    pub name: Option<String>,
    pub preferred_username: Option<String>,
    pub exp: Option<u64>,
}

pub open spec fn claims_view(c: JwtClaims) -> (
    Option<Seq<char>>,
    Option<Seq<char>>,
    Option<Seq<char>>,
    Option<Seq<char>>,
    Option<u64>,
) {
    (ov(c.did), ov(c.sub), ov(c.name), ov(c.preferred_username), c.exp)
}

/// What `serde_json::from_slice` into a `serde_json::Value` gives for the
/// bytes, read as the claims `did`, `sub`, `name`, `preferred_username`
/// (each when it is a string) and `exp` (when it is an unsigned integer).
pub uninterp spec fn spec_jwt_claims(payload: Seq<u8>) -> Option<
    (Option<Seq<char>>, Option<Seq<char>>, Option<Seq<char>>, Option<Seq<char>>, Option<u64>),
>;

/// `serde_json::from_slice::<serde_json::Value>`, then `Value::get` of
/// each claim with `as_str` (or `as_u64` for `exp`): the claims of a JSON
/// document, none when the bytes are not JSON. The contract names the
/// result; which texts are JSON is the crate's.
#[verifier::external_body]
fn jwt_claims(payload: &[u8]) -> (r: Option<JwtClaims>)
    ensures
        match r {
            Some(c) => spec_jwt_claims(payload@) == Some(claims_view(c)),
            None => spec_jwt_claims(payload@) is None,
        },
{
    let v: serde_json::Value = serde_json::from_slice(payload).ok()?;
    let text = |k: &str| v.get(k).and_then(|x| x.as_str()).map(|s| s.to_owned());
    Some(
        JwtClaims {
            did: text("did"),
            sub: text("sub"),
            name: text("name"),
            preferred_username: text("preferred_username"),
            exp: v.get("exp").and_then(|x| x.as_u64()),
        },
    )
}

/// Who the token says the operator is.
#[derive(Debug, Clone)]
pub struct EvrusIdentity {
    pub did: Option<String>,
    pub display_name: Option<String>,
    pub exp: Option<u64>,
}

pub open spec fn or_else(a: Option<Seq<char>>, b: Option<Seq<char>>) -> Option<Seq<char>> {
    match a {
        Some(x) => Some(x),
        None => b,
    }
}

/// The identity of a set of claims: the DID (or else the subject), the
/// display name (or else the preferred user name), and the expiry.
pub open spec fn spec_identity(
    c: (Option<Seq<char>>, Option<Seq<char>>, Option<Seq<char>>, Option<Seq<char>>, Option<u64>),
) -> (Option<Seq<char>>, Option<Seq<char>>, Option<u64>) {
    (or_else(c.0, c.1), or_else(c.2, c.3), c.4)
}

pub open spec fn identity_view(i: EvrusIdentity) -> (Option<Seq<char>>, Option<Seq<char>>, Option<u64>) {
    (ov(i.did), ov(i.display_name), i.exp)
}

fn first_of(a: Option<String>, b: Option<String>) -> (r: Option<String>)
    ensures
        ov(r) == or_else(ov(a), ov(b)),
{
    match a {
        Some(x) => Some(x),
        None => b,
    }
}

/// The identity that a set of claims describes.
pub fn identity_from_claims(c: JwtClaims) -> (r: EvrusIdentity)
    ensures
        identity_view(r) == spec_identity(claims_view(c)),
{
    EvrusIdentity {
        did: first_of(c.did, c.sub),
        display_name: first_of(c.name, c.preferred_username),
        exp: c.exp,
    }
}

/// The payload part of a token: the text between its first and second
/// `.` (or after the first when there is no second); none without a `.`.
pub open spec fn spec_jwt_payload(jwt: Seq<char>) -> Option<Seq<char>> {
    let parts = split_char(jwt, '.');
    if parts.len() >= 2 {
        Some(parts[1])
    } else {
        None
    }
}

/// The identity in a token: its payload part, decoded from URL-safe
/// base64, read as JSON claims; none when any step fails.
pub open spec fn spec_identity_of_jwt(jwt: Seq<char>) -> Option<(Option<Seq<char>>, Option<Seq<char>>, Option<u64>)> {
    match spec_jwt_payload(jwt) {
        None => None,
        Some(p) => match spec_base64url_decode(vstd::utf8::encode_utf8(p)) {
            None => None,
            Some(bytes) => match spec_jwt_claims(bytes) {
                None => None,
                Some(c) => Some(spec_identity(c)),
            },
        },
    }
}

pub fn parse_identity_from_jwt(jwt: &str) -> (r: Option<EvrusIdentity>)
    ensures
        match r {
            Some(id) => spec_identity_of_jwt(jwt@) == Some(identity_view(id)),
            None => spec_identity_of_jwt(jwt@) is None,
        },
{
    let v = chars_of(jwt);
    let spans = split_char_spans(&v, '.');
    if spans.len() < 2 {
        return None;
    }
    let (a, b) = spans[1];
    let payload = jwt.substring_char(a, b);
    let bytes = match base64url_decode(payload.as_bytes()) {
        Some(x) => x,
        None => {
            return None;
        },
    };
    match jwt_claims(bytes.as_slice()) {
        Some(c) => Some(identity_from_claims(c)),
        None => None,
    }
}

} // verus!
