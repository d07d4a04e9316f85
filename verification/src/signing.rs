//! Signing the audit trail: the canonical form of an event that is
//! signed, the Ed25519 signature in base64, the signing key's encoding,
//! and the Merkle root of the trail's lines.
use vstd::prelude::*;

use base64::Engine;
use ed25519_dalek::Signer;

use crate::audit::AuditEvent;
use crate::digest::{byte_views, merkle_root_of_payloads, spec_merkle_root};
use crate::observability::{line_spans, lines};
use crate::text::{
    chars_of, contains_seq, decimal, lemma_contains_left, lemma_contains_right, lemma_contains_self,
    spans_cut, u64_to_decimal,
};

verus! {

broadcast use vstd::string::group_string_axioms;

// ---------------------------------------------------------------------------
// The outside calls
// ---------------------------------------------------------------------------

/// What `serde_json::to_string` gives for a string: the JSON string
/// literal that stands for it.
pub uninterp spec fn spec_json_string(s: Seq<char>) -> Seq<char>;

/// `serde_json::to_string` of a `&str`: its JSON string literal, quoted
/// and escaped. The contract names the literal; the escaping is the
/// crate's. Serialising a string cannot fail.
#[verifier::external_body]
fn json_string(s: &str) -> (r: String)
    ensures
        r@ == spec_json_string(s@),
{
    serde_json::to_string(s).unwrap_or_default()
}

/// What a line of the trail reads as in canonical JSON: the text parsed
/// as a `serde_json::Value` and written back, or none when it is not JSON.
pub uninterp spec fn spec_canonical_json(line: Seq<char>) -> Option<Seq<char>>;

/// `serde_json::from_str::<serde_json::Value>` and then `Value::to_string`:
/// a line of the trail in canonical form, its object keys in sorted order
/// (the order in which `serde_json`'s map keeps them), without spaces;
/// none when the line is not JSON. The contract names the result.
#[verifier::external_body]
fn canonical_json(line: &str) -> (r: Option<String>)
    ensures
        match r {
            Some(c) => spec_canonical_json(line@) == Some(c@),
            None => spec_canonical_json(line@) is None,
        },
{
    serde_json::from_str::<serde_json::Value>(line).ok().map(|v| v.to_string())
}

/// The Ed25519 signature of a message under a secret key.
pub uninterp spec fn spec_ed25519_sign(secret: Seq<u8>, message: Seq<u8>) -> Seq<u8>;

/// `ed25519_dalek::SigningKey::from_bytes` and `Signer::sign`, then
/// `Signature::to_bytes`: the 64-byte Ed25519 signature of `message`
/// under the 32-byte secret key. Ed25519 signing is deterministic, so the
/// contract names the signature.
#[verifier::external_body]
fn ed25519_sign(secret: &[u8], message: &[u8]) -> (r: Vec<u8>)
    requires
        secret@.len() == 32,
    ensures
        r@ == spec_ed25519_sign(secret@, message@),
        r@.len() == 64,
{
    let key: [u8; 32] = secret.try_into().unwrap_or([0u8; 32]);
    let sk = ed25519_dalek::SigningKey::from_bytes(&key);
    sk.sign(message).to_bytes().to_vec()
}

/// The standard base64 text of some bytes.
pub uninterp spec fn spec_base64_encode(data: Seq<u8>) -> Seq<char>;

/// `base64::engine::general_purpose::STANDARD.encode`: standard base64
/// with padding. The contract names the text.
#[verifier::external_body]
fn base64_encode(data: &[u8]) -> (r: String)
    ensures
        r@ == spec_base64_encode(data@),
{
    base64::engine::general_purpose::STANDARD.encode(data)
}

/// The bytes that standard base64 text stands for.
pub uninterp spec fn spec_base64_decode(text: Seq<u8>) -> Option<Seq<u8>>;

/// `base64::engine::general_purpose::STANDARD.decode`: the bytes of
/// standard, padded base64 text, or the crate's description of why the
/// text is not such base64. The contract names the bytes; the wording of
/// the description is left unstated.
#[verifier::external_body]
fn base64_decode(text: &[u8]) -> (r: Result<Vec<u8>, String>)
    ensures
        match r {
            Ok(v) => spec_base64_decode(text@) == Some(v@),
            Err(_) => spec_base64_decode(text@) is None,
        },
{
    base64::engine::general_purpose::STANDARD.decode(text).map_err(|e| e.to_string())
}

// ---------------------------------------------------------------------------
// The canonical payload of an event
// ---------------------------------------------------------------------------

/// A member `"key":<value>` of a JSON object.
pub open spec fn member(key: Seq<char>, value: Seq<char>) -> Seq<char> {
    "\""@ + key + "\":"@ + value
}

pub open spec fn opt_string_member(key: Seq<char>, v: Option<String>) -> Seq<char> {
    match v {
        Some(s) => ","@ + member(key, spec_json_string(s@)),
        None => Seq::empty(),
    }
}

pub open spec fn opt_number_member(key: Seq<char>, v: Option<u64>) -> Seq<char> {
    match v {
        Some(n) => ","@ + member(key, decimal(n as nat)),
        None => Seq::empty(),
    }
}

/// What is signed of an event: a JSON object of its fields but the
/// signature, keys in sorted order and without spaces, the optional
/// fields only when present.
pub open spec fn spec_canonical_event_payload(e: AuditEvent) -> Seq<char> {
    "{"@ + member("action"@, spec_json_string(e.action@)) + ","@ + member(
        "actor"@,
        spec_json_string(e.actor@),
    ) + opt_number_member("anchor_blockheight"@, e.anchor_blockheight) + opt_string_member(
        "anchor_merkle_root"@,
        e.anchor_merkle_root,
    ) + opt_string_member("anchor_txid"@, e.anchor_txid) + opt_string_member(
        "policy_hash"@,
        e.policy_hash,
    ) + ","@ + member("result"@, spec_json_string(e.result@)) + ","@ + member(
        "target"@,
        spec_json_string(e.target@),
    ) + ","@ + member("ts"@, decimal(e.ts as nat)) + "}"@
}

fn push_member(out: &mut String, key: &str, value: &str)
    ensures
        final(out)@ == old(out)@ + member(key@, value@),
{
    out.append("\"");
    out.append(key);
    out.append("\":");
    out.append(value);
}

fn push_opt_string(out: &mut String, key: &str, v: &Option<String>)
    ensures
        final(out)@ == old(out)@ + opt_string_member(key@, *v),
{
    match v {
        Some(s) => {
            out.append(",");
            let j = json_string(s.as_str());
            push_member(out, key, j.as_str());
        },
        None => {
            assert(old(out)@ + Seq::<char>::empty() =~= old(out)@);
        },
    }
}

fn push_opt_number(out: &mut String, key: &str, v: Option<u64>)
    ensures
        final(out)@ == old(out)@ + opt_number_member(key@, v),
{
    match v {
        Some(n) => {
            out.append(",");
            let d = u64_to_decimal(n);
            push_member(out, key, d.as_str());
        },
        None => {
            assert(old(out)@ + Seq::<char>::empty() =~= old(out)@);
        },
    }
}

/// The canonical payload of an event, which its signature covers.
pub fn canonical_event_payload(event: &AuditEvent) -> (r: String)
    ensures
        r@ == spec_canonical_event_payload(*event),
{
    let mut out = "{".to_owned();
    let a = json_string(event.action.as_str());
    push_member(&mut out, "action", a.as_str());
    out.append(",");
    let b = json_string(event.actor.as_str());
    push_member(&mut out, "actor", b.as_str());
    push_opt_number(&mut out, "anchor_blockheight", event.anchor_blockheight);
    push_opt_string(&mut out, "anchor_merkle_root", &event.anchor_merkle_root);
    push_opt_string(&mut out, "anchor_txid", &event.anchor_txid);
    push_opt_string(&mut out, "policy_hash", &event.policy_hash);
    out.append(",");
    let c = json_string(event.result.as_str());
    push_member(&mut out, "result", c.as_str());
    out.append(",");
    let d = json_string(event.target.as_str());
    push_member(&mut out, "target", d.as_str());
    out.append(",");
    let t = u64_to_decimal(event.ts);
    push_member(&mut out, "ts", t.as_str());
    out.append("}");
    out
}

/// The signature of an event: the Ed25519 signature of its canonical
/// payload (in UTF-8) under the secret key, in standard base64.
pub open spec fn spec_event_signature(e: AuditEvent, secret: Seq<u8>) -> Seq<char> {
    spec_base64_encode(
        spec_ed25519_sign(secret, vstd::utf8::encode_utf8(spec_canonical_event_payload(e))),
    )
}

pub fn sign_event(event: &AuditEvent, secret: &[u8]) -> (r: String)
    requires
        secret@.len() == 32,
    ensures
        r@ == spec_event_signature(*event, secret@),
{
    let payload = canonical_event_payload(event);
    let sig = ed25519_sign(secret, payload.as_str().as_bytes());
    base64_encode(sig.as_slice())
}

/// The event as appended to the trail: signed with the key unless it
/// already carries a signature.
pub fn signed_event(event: AuditEvent, secret: &[u8]) -> (r: AuditEvent)
    requires
        secret@.len() == 32,
    ensures
        r.ts == event.ts,
        r.action == event.action,
        r.target == event.target,
        r.result == event.result,
        r.actor == event.actor,
        r.policy_hash == event.policy_hash,
        r.anchor_txid == event.anchor_txid,
        r.anchor_blockheight == event.anchor_blockheight,
        r.anchor_merkle_root == event.anchor_merkle_root,
        match event.sig {
            Some(s) => r.sig == Some(s),
            None => r.sig matches Some(s) && s@ == spec_event_signature(event, secret@),
        },
{
    let mut e = event;
    if e.sig.is_none() {
        let s = sign_event(&e, secret);
        e.sig = Some(s);
    }
    e
}

/// What is signed of an event does not depend on its signature, so a
/// signature never covers itself and re-signing a signed event gives the
/// same signature.
pub proof fn law_signature_covers_all_but_itself(e: AuditEvent, sig: Option<String>, secret: Seq<u8>)
    ensures
        spec_canonical_event_payload(AuditEvent { sig, ..e }) == spec_canonical_event_payload(e),
        spec_event_signature(AuditEvent { sig, ..e }, secret) == spec_event_signature(e, secret),
{
}


/// The canonical payload names every field of the event but the
/// signature: each of `action`, `actor`, `result`, `target` and `ts`, and
/// each of `anchor_blockheight`, `anchor_merkle_root`, `anchor_txid` and
/// `policy_hash` that is present, as a member `"key":value` with its value
/// in JSON; so the signature covers each of them.
pub proof fn law_payload_names_every_field(e: AuditEvent)
    ensures
        contains_seq(spec_canonical_event_payload(e), "\"action\":"@ + spec_json_string(e.action@)),
        contains_seq(spec_canonical_event_payload(e), "\"actor\":"@ + spec_json_string(e.actor@)),
        e.anchor_blockheight matches Some(h) ==> contains_seq(
            spec_canonical_event_payload(e),
            "\"anchor_blockheight\":"@ + decimal(h as nat),
        ),
        e.anchor_merkle_root matches Some(m) ==> contains_seq(
            spec_canonical_event_payload(e),
            "\"anchor_merkle_root\":"@ + spec_json_string(m@),
        ),
        e.anchor_txid matches Some(t) ==> contains_seq(
            spec_canonical_event_payload(e),
            "\"anchor_txid\":"@ + spec_json_string(t@),
        ),
        e.policy_hash matches Some(h) ==> contains_seq(
            spec_canonical_event_payload(e),
            "\"policy_hash\":"@ + spec_json_string(h@),
        ),
        contains_seq(spec_canonical_event_payload(e), "\"result\":"@ + spec_json_string(e.result@)),
        contains_seq(spec_canonical_event_payload(e), "\"target\":"@ + spec_json_string(e.target@)),
        contains_seq(spec_canonical_event_payload(e), "\"ts\":"@ + decimal(e.ts as nat)),
{
    reveal_strlit("\"");
    reveal_strlit("\":");
    let p1 = "{"@ + member("action"@, spec_json_string(e.action@));
    let p2 = p1 + ","@;
    let p3 = p2 + member("actor"@, spec_json_string(e.actor@));
    let p4 = p3 + opt_number_member("anchor_blockheight"@, e.anchor_blockheight);
    let p5 = p4 + opt_string_member("anchor_merkle_root"@, e.anchor_merkle_root);
    let p6 = p5 + opt_string_member("anchor_txid"@, e.anchor_txid);
    let p7 = p6 + opt_string_member("policy_hash"@, e.policy_hash);
    let p8 = p7 + ","@;
    let p9 = p8 + member("result"@, spec_json_string(e.result@));
    let p10 = p9 + ","@;
    let p11 = p10 + member("target"@, spec_json_string(e.target@));
    let p12 = p11 + ","@;
    let p13 = p12 + member("ts"@, decimal(e.ts as nat));
    let whole = p13 + "}"@;
    assert(whole == spec_canonical_event_payload(e));
    {
        reveal_strlit("\"action\":");
        reveal_strlit("action");
        let x = member("action"@, spec_json_string(e.action@));
        assert(x =~= "\"action\":"@ + spec_json_string(e.action@));
        lemma_contains_self(x);
        lemma_contains_right("{"@, member("action"@, spec_json_string(e.action@)), x);
        lemma_contains_left(p1, ","@, x);
        lemma_contains_left(p2, member("actor"@, spec_json_string(e.actor@)), x);
        lemma_contains_left(p3, opt_number_member("anchor_blockheight"@, e.anchor_blockheight), x);
        lemma_contains_left(p4, opt_string_member("anchor_merkle_root"@, e.anchor_merkle_root), x);
        lemma_contains_left(p5, opt_string_member("anchor_txid"@, e.anchor_txid), x);
        lemma_contains_left(p6, opt_string_member("policy_hash"@, e.policy_hash), x);
        lemma_contains_left(p7, ","@, x);
        lemma_contains_left(p8, member("result"@, spec_json_string(e.result@)), x);
        lemma_contains_left(p9, ","@, x);
        lemma_contains_left(p10, member("target"@, spec_json_string(e.target@)), x);
        lemma_contains_left(p11, ","@, x);
        lemma_contains_left(p12, member("ts"@, decimal(e.ts as nat)), x);
        lemma_contains_left(p13, "}"@, x);
    }
    {
        reveal_strlit("\"actor\":");
        reveal_strlit("actor");
        let x = member("actor"@, spec_json_string(e.actor@));
        assert(x =~= "\"actor\":"@ + spec_json_string(e.actor@));
        lemma_contains_self(x);
        lemma_contains_right(p2, member("actor"@, spec_json_string(e.actor@)), x);
        lemma_contains_left(p3, opt_number_member("anchor_blockheight"@, e.anchor_blockheight), x);
        lemma_contains_left(p4, opt_string_member("anchor_merkle_root"@, e.anchor_merkle_root), x);
        lemma_contains_left(p5, opt_string_member("anchor_txid"@, e.anchor_txid), x);
        lemma_contains_left(p6, opt_string_member("policy_hash"@, e.policy_hash), x);
        lemma_contains_left(p7, ","@, x);
        lemma_contains_left(p8, member("result"@, spec_json_string(e.result@)), x);
        lemma_contains_left(p9, ","@, x);
        lemma_contains_left(p10, member("target"@, spec_json_string(e.target@)), x);
        lemma_contains_left(p11, ","@, x);
        lemma_contains_left(p12, member("ts"@, decimal(e.ts as nat)), x);
        lemma_contains_left(p13, "}"@, x);
    }
    if let Some(h) = e.anchor_blockheight {
        reveal_strlit("\"anchor_blockheight\":");
        reveal_strlit("anchor_blockheight");
        let x = member("anchor_blockheight"@, decimal(h as nat));
        assert(x =~= "\"anchor_blockheight\":"@ + decimal(h as nat));
        lemma_contains_self(x);
        lemma_contains_right(","@, x, x);
        lemma_contains_right(p3, opt_number_member("anchor_blockheight"@, e.anchor_blockheight), x);
        lemma_contains_left(p4, opt_string_member("anchor_merkle_root"@, e.anchor_merkle_root), x);
        lemma_contains_left(p5, opt_string_member("anchor_txid"@, e.anchor_txid), x);
        lemma_contains_left(p6, opt_string_member("policy_hash"@, e.policy_hash), x);
        lemma_contains_left(p7, ","@, x);
        lemma_contains_left(p8, member("result"@, spec_json_string(e.result@)), x);
        lemma_contains_left(p9, ","@, x);
        lemma_contains_left(p10, member("target"@, spec_json_string(e.target@)), x);
        lemma_contains_left(p11, ","@, x);
        lemma_contains_left(p12, member("ts"@, decimal(e.ts as nat)), x);
        lemma_contains_left(p13, "}"@, x);
    }
    if let Some(m) = e.anchor_merkle_root {
        reveal_strlit("\"anchor_merkle_root\":");
        reveal_strlit("anchor_merkle_root");
        let x = member("anchor_merkle_root"@, spec_json_string(m@));
        assert(x =~= "\"anchor_merkle_root\":"@ + spec_json_string(m@));
        lemma_contains_self(x);
        lemma_contains_right(","@, x, x);
        lemma_contains_right(p4, opt_string_member("anchor_merkle_root"@, e.anchor_merkle_root), x);
        lemma_contains_left(p5, opt_string_member("anchor_txid"@, e.anchor_txid), x);
        lemma_contains_left(p6, opt_string_member("policy_hash"@, e.policy_hash), x);
        lemma_contains_left(p7, ","@, x);
        lemma_contains_left(p8, member("result"@, spec_json_string(e.result@)), x);
        lemma_contains_left(p9, ","@, x);
        lemma_contains_left(p10, member("target"@, spec_json_string(e.target@)), x);
        lemma_contains_left(p11, ","@, x);
        lemma_contains_left(p12, member("ts"@, decimal(e.ts as nat)), x);
        lemma_contains_left(p13, "}"@, x);
    }
    if let Some(t) = e.anchor_txid {
        reveal_strlit("\"anchor_txid\":");
        reveal_strlit("anchor_txid");
        let x = member("anchor_txid"@, spec_json_string(t@));
        assert(x =~= "\"anchor_txid\":"@ + spec_json_string(t@));
        lemma_contains_self(x);
        lemma_contains_right(","@, x, x);
        lemma_contains_right(p5, opt_string_member("anchor_txid"@, e.anchor_txid), x);
        lemma_contains_left(p6, opt_string_member("policy_hash"@, e.policy_hash), x);
        lemma_contains_left(p7, ","@, x);
        lemma_contains_left(p8, member("result"@, spec_json_string(e.result@)), x);
        lemma_contains_left(p9, ","@, x);
        lemma_contains_left(p10, member("target"@, spec_json_string(e.target@)), x);
        lemma_contains_left(p11, ","@, x);
        lemma_contains_left(p12, member("ts"@, decimal(e.ts as nat)), x);
        lemma_contains_left(p13, "}"@, x);
    }
    if let Some(h) = e.policy_hash {
        reveal_strlit("\"policy_hash\":");
        reveal_strlit("policy_hash");
        let x = member("policy_hash"@, spec_json_string(h@));
        assert(x =~= "\"policy_hash\":"@ + spec_json_string(h@));
        lemma_contains_self(x);
        lemma_contains_right(","@, x, x);
        lemma_contains_right(p6, opt_string_member("policy_hash"@, e.policy_hash), x);
        lemma_contains_left(p7, ","@, x);
        lemma_contains_left(p8, member("result"@, spec_json_string(e.result@)), x);
        lemma_contains_left(p9, ","@, x);
        lemma_contains_left(p10, member("target"@, spec_json_string(e.target@)), x);
        lemma_contains_left(p11, ","@, x);
        lemma_contains_left(p12, member("ts"@, decimal(e.ts as nat)), x);
        lemma_contains_left(p13, "}"@, x);
    }
    {
        reveal_strlit("\"result\":");
        reveal_strlit("result");
        let x = member("result"@, spec_json_string(e.result@));
        assert(x =~= "\"result\":"@ + spec_json_string(e.result@));
        lemma_contains_self(x);
        lemma_contains_right(p8, member("result"@, spec_json_string(e.result@)), x);
        lemma_contains_left(p9, ","@, x);
        lemma_contains_left(p10, member("target"@, spec_json_string(e.target@)), x);
        lemma_contains_left(p11, ","@, x);
        lemma_contains_left(p12, member("ts"@, decimal(e.ts as nat)), x);
        lemma_contains_left(p13, "}"@, x);
    }
    {
        reveal_strlit("\"target\":");
        reveal_strlit("target");
        let x = member("target"@, spec_json_string(e.target@));
        assert(x =~= "\"target\":"@ + spec_json_string(e.target@));
        lemma_contains_self(x);
        lemma_contains_right(p10, member("target"@, spec_json_string(e.target@)), x);
        lemma_contains_left(p11, ","@, x);
        lemma_contains_left(p12, member("ts"@, decimal(e.ts as nat)), x);
        lemma_contains_left(p13, "}"@, x);
    }
    {
        reveal_strlit("\"ts\":");
        reveal_strlit("ts");
        let x = member("ts"@, decimal(e.ts as nat));
        assert(x =~= "\"ts\":"@ + decimal(e.ts as nat));
        lemma_contains_self(x);
        lemma_contains_right(p12, member("ts"@, decimal(e.ts as nat)), x);
        lemma_contains_left(p13, "}"@, x);
    }
}

/// The canonical payload is one JSON object with sorted keys: it opens
/// with the `action` and `actor` members and closes with the `result`,
/// `target` and `ts` members, in that order.
pub proof fn law_payload_keys_in_order(e: AuditEvent)
    ensures
        ("{\"action\":"@ + spec_json_string(e.action@) + ",\"actor\":"@ + spec_json_string(
            e.actor@,
        )).is_prefix_of(spec_canonical_event_payload(e)),
        (",\"result\":"@ + spec_json_string(e.result@) + ",\"target\":"@ + spec_json_string(
            e.target@,
        ) + ",\"ts\":"@ + decimal(e.ts as nat) + "}"@).is_suffix_of(
            spec_canonical_event_payload(e),
        ),
{
    reveal_strlit("\"");
    reveal_strlit("\":");
    reveal_strlit(",");
    reveal_strlit("{");
    reveal_strlit("action");
    reveal_strlit("actor");
    reveal_strlit("result");
    reveal_strlit("target");
    reveal_strlit("ts");
    reveal_strlit("{\"action\":");
    reveal_strlit(",\"actor\":");
    reveal_strlit(",\"result\":");
    reveal_strlit(",\"target\":");
    reveal_strlit(",\"ts\":");
    let head = "{"@ + member("action"@, spec_json_string(e.action@)) + ","@ + member(
        "actor"@,
        spec_json_string(e.actor@),
    );
    let mid = opt_number_member("anchor_blockheight"@, e.anchor_blockheight) + opt_string_member(
        "anchor_merkle_root"@,
        e.anchor_merkle_root,
    ) + opt_string_member("anchor_txid"@, e.anchor_txid) + opt_string_member(
        "policy_hash"@,
        e.policy_hash,
    );
    let tail = ","@ + member("result"@, spec_json_string(e.result@)) + ","@ + member(
        "target"@,
        spec_json_string(e.target@),
    ) + ","@ + member("ts"@, decimal(e.ts as nat)) + "}"@;
    let whole = spec_canonical_event_payload(e);
    assert(whole =~= head + mid + tail);
    assert(head =~= "{\"action\":"@ + spec_json_string(e.action@) + ",\"actor\":"@ + spec_json_string(
        e.actor@,
    ));
    assert(tail =~= ",\"result\":"@ + spec_json_string(e.result@) + ",\"target\":"@
        + spec_json_string(e.target@) + ",\"ts\":"@ + decimal(e.ts as nat) + "}"@);
    assert(whole.subrange(0, head.len() as int) =~= head);
    assert(whole.subrange((whole.len() - tail.len()) as int, whole.len() as int) =~= tail);
}

// ---------------------------------------------------------------------------
// The signing key
// ---------------------------------------------------------------------------

/// Reading a stored signing key: standard base64 of exactly 32 bytes.
pub open spec fn spec_decode_signing_key(encoded: Seq<char>) -> Result<Seq<u8>, Seq<char>> {
    match spec_base64_decode(vstd::utf8::encode_utf8(encoded)) {
        None => Err("invalid signing key encoding"@),
        Some(b) => if b.len() == 32 {
            Ok(b)
        } else {
            Err("invalid signing key length"@)
        },
    }
}

/// The secret key stored as `encoded`. A text that is not base64 is
/// refused with `invalid signing key encoding: <why>`, one of another
/// length than 32 bytes with `invalid signing key length`.
pub fn decode_signing_key(encoded: &str) -> (r: Result<Vec<u8>, String>)
    ensures
        match r {
            Ok(k) => spec_decode_signing_key(encoded@) == Ok::<Seq<u8>, Seq<char>>(k@) && k@.len()
                == 32,
            Err(m) => match spec_decode_signing_key(encoded@) {
                Ok(_) => false,
                Err(k) => if k == "invalid signing key length"@ {
                    m@ == k
                } else {
                    exists|why: Seq<char>| m@ == "invalid signing key encoding: "@ + why
                },
            },
        },
{
    match base64_decode(encoded.as_bytes()) {
        Err(why) => {
            proof {
                reveal_strlit("invalid signing key encoding");
                reveal_strlit("invalid signing key length");
                assert("invalid signing key encoding"@.len() != "invalid signing key length"@.len());
            }
            let mut m = "invalid signing key encoding: ".to_owned();
            m.append(why.as_str());
            assert(m@ == "invalid signing key encoding: "@ + why@);
            Err(m)
        },
        Ok(bytes) => {
            if bytes.len() == 32 {
                Ok(bytes)
            } else {
                Err("invalid signing key length".to_owned())
            }
        },
    }
}

// ---------------------------------------------------------------------------
// The Merkle root of the trail
// ---------------------------------------------------------------------------

/// The canonical texts of the lines that are JSON, in order.
pub open spec fn canonical_lines(ls: Seq<Seq<char>>) -> Seq<Seq<char>>
    decreases ls.len(),
{
    if ls.len() == 0 {
        Seq::empty()
    } else {
        let rest = canonical_lines(ls.drop_last());
        match spec_canonical_json(ls.last()) {
            Some(c) => rest.push(c),
            None => rest,
        }
    }
}

/// The Merkle root of a trail: over the canonical texts (in UTF-8) of
/// its lines that are JSON; none when there is no such line.
pub open spec fn spec_current_merkle_root(raw: Seq<char>) -> Option<Seq<char>> {
    spec_merkle_root(
        canonical_lines(lines(raw)).map_values(|c: Seq<char>| vstd::utf8::encode_utf8(c)),
    )
}

pub fn current_merkle_root(raw: &str) -> (r: Option<String>)
    ensures
        match r {
            Some(s) => spec_current_merkle_root(raw@) == Some(s@),
            None => spec_current_merkle_root(raw@) is None,
        },
{
    let v = chars_of(raw);
    let spans = line_spans(&v);
    let ghost ls = lines(v@);
    let mut payloads: Vec<Vec<u8>> = Vec::new();
    let mut i: usize = 0;
    assert(ls.subrange(0, 0) =~= Seq::<Seq<char>>::empty());
    while i < spans.len()
        invariant
            v@ == raw@,
            ls == lines(v@),
            spans_cut(v@, spans@, ls),
            i <= spans@.len(),
            byte_views(payloads@) =~= canonical_lines(ls.subrange(0, i as int)).map_values(
                |c: Seq<char>| vstd::utf8::encode_utf8(c),
            ),
        decreases spans@.len() - i,
    {
        let (a, b) = spans[i];
        let line = raw.substring_char(a, b);
        assert(line@ == ls[i as int]);
        let ghost pre = ls.subrange(0, i as int);
        let ghost post = ls.subrange(0, i + 1);
        assert(post.drop_last() =~= pre);
        assert(post.last() == ls[i as int]);
        match canonical_json(line) {
            Some(c) => {
                let bytes = c.as_str().as_bytes_vec();
                let ghost old_p = payloads@;
                payloads.push(bytes);
                assert(byte_views(payloads@) =~= byte_views(old_p).push(
                    vstd::utf8::encode_utf8(c@),
                ));
            },
            None => {},
        }
        i = i + 1;
    }
    assert(ls.subrange(0, i as int) =~= ls);
    merkle_root_of_payloads(&payloads)
}

} // verus!
