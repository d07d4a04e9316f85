//! The append-only audit trail: event records, their location, and the
//! anchoring of the trail's Merkle root.
use vstd::prelude::*;

use crate::digest::{hex, hex_bytes};
use crate::observability::{line_spans, lines};
use crate::paths::{join, parent_or_dot, path_join, sibling};
use crate::text::{chars_of, spans_cut};

verus! {

broadcast use vstd::string::group_string_axioms;

/// One record of the audit trail.
#[derive(Debug, Clone)]
pub struct AuditEvent {
    pub ts: u64,
    pub action: String,
    pub target: String,
    pub result: String,
    pub actor: String,
    pub sig: Option<String>,
    pub policy_hash: Option<String>,
    pub anchor_txid: Option<String>,
    pub anchor_blockheight: Option<u64>,
    pub anchor_merkle_root: Option<String>,
}

/// What the last anchoring of the trail recorded.
#[derive(Debug, Clone)]
pub struct AnchorState {
    pub last_anchor_ts: Option<u64>,
    pub last_anchor_txid: Option<String>,
    pub last_anchor_blockheight: Option<u64>,
    pub last_anchor_merkle_root: Option<String>,
}

/// Where and as whom the Merkle root is anchored.
#[derive(Debug, Clone)]
pub struct AnchorConfig {
    pub rpc_url: String,
    pub rpc_user: String,
    pub rpc_pass: String,
}

pub open spec fn opt_view(o: Option<String>) -> Option<Seq<char>> {
    match o {
        Some(s) => Some(s@),
        None => None,
    }
}

impl AnchorState {
    /// No anchor yet.
    pub fn empty() -> (r: AnchorState)
        ensures
            r.last_anchor_ts is None,
            r.last_anchor_txid is None,
            r.last_anchor_blockheight is None,
            r.last_anchor_merkle_root is None,
    {
        AnchorState {
            last_anchor_ts: None,
            last_anchor_txid: None,
            last_anchor_blockheight: None,
            last_anchor_merkle_root: None,
        }
    }
}

impl Default for AnchorState {
    fn default() -> (r: AnchorState)
        ensures
            r.last_anchor_ts is None,
            r.last_anchor_txid is None,
            r.last_anchor_blockheight is None,
            r.last_anchor_merkle_root is None,
    {
        AnchorState::empty()
    }
}

/// `<root>/.beads/audit/events.jsonl`.
pub open spec fn spec_default_audit_path(root: Seq<char>) -> Seq<char> {
    path_join(path_join(path_join(root, ".beads"@), "audit"@), "events.jsonl"@)
}

/// Where the audit trail is kept under a working directory.
pub fn default_audit_path(root: &str) -> (r: String)
    ensures
        r@ == spec_default_audit_path(root@),
{
    let a = join(root, ".beads");
    let b = join(a.as_str(), "audit");
    join(b.as_str(), "events.jsonl")
}

/// The signing key lives next to the trail, in `signing.ed25519`.
pub fn signing_key_path(audit_path: &str) -> (r: String)
    ensures
        r@ == path_join(parent_or_dot(audit_path@), "signing.ed25519"@),
{
    sibling(audit_path, "signing.ed25519")
}

/// The anchoring state lives next to the trail, in `anchor_state.json`.
pub fn anchor_state_path(audit_path: &str) -> (r: String)
    ensures
        r@ == path_join(parent_or_dot(audit_path@), "anchor_state.json"@),
{
    sibling(audit_path, "anchor_state.json")
}

/// The trail needs anchoring when it has a root and the last anchor
/// recorded another one.
pub open spec fn spec_anchor_due(root: Option<Seq<char>>, last: Option<Seq<char>>) -> bool {
    root is Some && last != root
}

/// Whether the current Merkle root still has to be anchored.
pub fn anchor_due(merkle_root: &Option<String>, state: &AnchorState) -> (r: bool)
    ensures
        r == spec_anchor_due(opt_view(*merkle_root), opt_view(state.last_anchor_merkle_root)),
{
    match merkle_root {
        None => false,
        Some(root) => match &state.last_anchor_merkle_root {
            None => true,
            Some(last) => {
                let a = crate::text::chars_of(root.as_str());
                let b = crate::text::chars_of(last.as_str());
                !crate::text::vec_eq(&a, &b)
            },
        },
    }
}

/// The bytes written into the anchoring transaction: `sentinel:<root>`
/// in UTF-8, as lowercase hexadecimal.
pub fn anchor_marker_hex(merkle_root: &str) -> (r: String)
    ensures
        r@ == hex(vstd::utf8::encode_utf8("sentinel:"@ + merkle_root@)),
{
    let mut marker = "sentinel:".to_owned();
    marker.append(merkle_root);
    hex_bytes(marker.as_str().as_bytes())
}

/// The audit record of a successful anchoring.
pub fn anchor_event(
    ts: u64,
    actor: &str,
    txid: &str,
    blockheight: Option<u64>,
    merkle_root: &str,
) -> (r: AuditEvent)
    ensures
        r.ts == ts,
        r.action@ == "audit_anchor"@,
        r.target@ == "audit_window"@,
        r.result@ == "ok: anchored"@,
        r.actor@ == actor@,
        r.sig is None,
        r.policy_hash is None,
        opt_view(r.anchor_txid) == Some(txid@),
        r.anchor_blockheight == blockheight,
        opt_view(r.anchor_merkle_root) == Some(merkle_root@),
{
    AuditEvent {
        ts,
        action: "audit_anchor".to_owned(),
        target: "audit_window".to_owned(),
        result: "ok: anchored".to_owned(),
        actor: actor.to_owned(),
        sig: None,
        policy_hash: None,
        anchor_txid: Some(txid.to_owned()),
        anchor_blockheight: blockheight,
        anchor_merkle_root: Some(merkle_root.to_owned()),
    }
}

/// Records a successful anchoring in the state.
pub fn record_anchor(
    state: &mut AnchorState,
    ts: u64,
    txid: &str,
    blockheight: Option<u64>,
    merkle_root: &str,
)
    ensures
        final(state).last_anchor_ts == Some(ts),
        opt_view(final(state).last_anchor_txid) == Some(txid@),
        final(state).last_anchor_blockheight == blockheight,
        opt_view(final(state).last_anchor_merkle_root) == Some(merkle_root@),
{
    state.last_anchor_ts = Some(ts);
    state.last_anchor_txid = Some(txid.to_owned());
    state.last_anchor_blockheight = blockheight;
    state.last_anchor_merkle_root = Some(merkle_root.to_owned());
}

/// Completes an anchoring round of the trail whose current Merkle root is
/// `merkle_root`: when the root is due, the record of its anchoring by
/// `actor` in transaction `txid` (at `blockheight` if known, at time `ts`)
/// and the state that records it; `None` when nothing is due.
pub fn anchor_audit_if_due(
    actor: &str,
    merkle_root: &Option<String>,
    state: &AnchorState,
    txid: &str,
    blockheight: Option<u64>,
    ts: u64,
) -> (r: Option<(AuditEvent, AnchorState)>)
    ensures
        r is Some <==> spec_anchor_due(opt_view(*merkle_root), opt_view(state.last_anchor_merkle_root)),
        r matches Some((ev, st)) ==> {
            &&& ev.ts == ts
            &&& ev.action@ == "audit_anchor"@
            &&& ev.target@ == "audit_window"@
            &&& ev.result@ == "ok: anchored"@
            &&& ev.actor@ == actor@
            &&& ev.sig is None
            &&& ev.policy_hash is None
            &&& opt_view(ev.anchor_txid) == Some(txid@)
            &&& ev.anchor_blockheight == blockheight
            &&& opt_view(ev.anchor_merkle_root) == opt_view(*merkle_root)
            &&& st.last_anchor_ts == Some(ts)
            &&& opt_view(st.last_anchor_txid) == Some(txid@)
            &&& st.last_anchor_blockheight == blockheight
            &&& opt_view(st.last_anchor_merkle_root) == opt_view(*merkle_root)
        },
{
    if !anchor_due(merkle_root, state) {
        return None;
    }
    match merkle_root {
        None => None,
        Some(root) => {
            let event = anchor_event(ts, actor, txid, blockheight, root.as_str());
            let mut next = state.clone();
            record_anchor(&mut next, ts, txid, blockheight, root.as_str());
            Some((event, next))
        },
    }
}

pub open spec fn str_views<'a>(v: Seq<&'a str>) -> Seq<Seq<char>> {
    v.map_values(|s: &'a str| s@)
}

/// The newest `limit` lines of the trail, newest first.
pub open spec fn spec_recent_lines(raw: Seq<char>, limit: usize) -> Seq<Seq<char>> {
    let ls = lines(raw);
    let n = if limit < ls.len() {
        limit as int
    } else {
        ls.len() as int
    };
    Seq::new(n as nat, |i: int| ls[ls.len() - 1 - i])
}

/// The lines that `read_recent` parses: the last `limit` ones, newest first.
pub fn recent_lines<'a>(raw: &'a str, limit: usize) -> (r: Vec<&'a str>)
    ensures
        str_views(r@) == spec_recent_lines(raw@, limit),
{
    let v = chars_of(raw);
    let spans = line_spans(&v);
    let ghost ls = lines(v@);
    let len = spans.len();
    let n = if limit < len {
        limit
    } else {
        len
    };
    let mut out: Vec<&'a str> = Vec::new();
    let mut i: usize = 0;
    while i < n
        invariant
            v@ == raw@,
            ls == lines(v@),
            spans_cut(v@, spans@, ls),
            len == spans@.len(),
            n <= len,
            i <= n,
            out@.len() == i,
            forall|k: int| 0 <= k < i ==> (#[trigger] out@[k])@ == ls[len - 1 - k],
        decreases n - i,
    {
        let (a, b) = spans[len - 1 - i];
        out.push(raw.substring_char(a, b));
        i = i + 1;
    }
    assert(str_views(out@) =~= spec_recent_lines(raw@, limit));
    out
}

/// The lines of the trail from line `offset` on, and how many lines it has.
pub fn lines_from<'a>(raw: &'a str, offset: usize) -> (r: (Vec<&'a str>, usize))
    ensures
        r.1 == lines(raw@).len(),
        str_views(r.0@) == (if offset < lines(raw@).len() {
            lines(raw@).subrange(offset as int, lines(raw@).len() as int)
        } else {
            Seq::empty()
        }),
{
    let v = chars_of(raw);
    let spans = line_spans(&v);
    let ghost ls = lines(v@);
    let len = spans.len();
    let mut out: Vec<&'a str> = Vec::new();
    let mut i: usize = offset;
    while i < len
        invariant
            v@ == raw@,
            ls == lines(v@),
            spans_cut(v@, spans@, ls),
            len == spans@.len(),
            offset <= i,
            offset < len ==> i <= len,
            offset >= len ==> i == offset,
            out@.len() == i - offset,
            forall|k: int| 0 <= k < out@.len() ==> (#[trigger] out@[k])@ == ls[offset + k],
        decreases len - i,
    {
        let (a, b) = spans[i];
        out.push(raw.substring_char(a, b));
        i = i + 1;
    }
    proof {
        if offset < len {
            assert(str_views(out@) =~= ls.subrange(offset as int, len as int));
        } else {
            assert(str_views(out@) =~= Seq::<Seq<char>>::empty());
        }
    }
    (out, len)
}

/// Once a root is recorded as anchored, the same root is not due again.
pub proof fn law_anchored_root_is_not_due(root: Seq<char>)
    ensures
        !spec_anchor_due(Some(root), Some(root)),
{
}

/// The current time in whole seconds since the Unix epoch.
///
/// Wraps `SystemTime::now` and `duration_since(UNIX_EPOCH)`; a clock set
/// before the epoch reads as 0. Nothing is stated of the value: it is the
/// machine's clock.
#[verifier::external_body]
pub fn now_ts() -> u64 {
    std::time::SystemTime::now().duration_since(std::time::UNIX_EPOCH).unwrap_or_default().as_secs()
}

} // verus!
