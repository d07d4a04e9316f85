//! The privilege-separated helper: its capabilities, and the decisions it
//! takes on a request before and after it signals or renices a process.
use vstd::prelude::*;

use crate::audit::AuditEvent;
use crate::text::{
    chars_of, decimal, i64_to_decimal, join_with, signed_decimal, spans_cut, split_char,
    split_char_spans, str_eq, trim, u64_to_decimal, lemma_split_char_nonempty, is_ws,
    skip_ws_from, back_ws_from, trim_start, trim_end,
};

verus! {

broadcast use vstd::string::group_string_axioms;

/// What the helper was started to allow.
#[derive(Debug, Clone, Copy, PartialEq, Eq, Structural)]
pub enum Capability {
    KillProcess,
    ReniceProcess,
}

/// A request sent to the helper over its socket.
#[derive(Debug)]
pub struct HelperRequest {
    pub action: String,
    pub pid: u32,
    pub nice: Option<i32>,
}

/// The helper's answer.
#[derive(Debug)]
pub struct HelperResponse {
    pub ok: bool,
    pub message: String,
}

// ---------------------------------------------------------------------------
// Capability lists
// ---------------------------------------------------------------------------

/// The name of a capability in the helper's environment.
pub open spec fn cap_name(c: Capability) -> Seq<char> {
    match c {
        Capability::KillProcess => "kill"@,
        Capability::ReniceProcess => "renice"@,
    }
}

pub open spec fn cap_of(t: Seq<char>) -> Option<Capability> {
    if t == "kill"@ {
        Some(Capability::KillProcess)
    } else if t == "renice"@ {
        Some(Capability::ReniceProcess)
    } else {
        None
    }
}

/// The capabilities named by the pieces, trimmed, in order; unknown names
/// are skipped.
pub open spec fn caps_from(pieces: Seq<Seq<char>>) -> Seq<Capability>
    decreases pieces.len(),
{
    if pieces.len() == 0 {
        Seq::empty()
    } else {
        let prev = caps_from(pieces.drop_last());
        match cap_of(trim(pieces.last())) {
            Some(c) => prev.push(c),
            None => prev,
        }
    }
}

/// A comma-separated capability list read back into capabilities.
pub open spec fn spec_parse_capabilities(raw: Seq<char>) -> Seq<Capability> {
    caps_from(split_char(raw, ','))
}

/// Capabilities written as a comma-separated list.
pub open spec fn spec_serialize_capabilities(caps: Seq<Capability>) -> Seq<char> {
    join_with(caps.map_values(|c: Capability| cap_name(c)), ","@)
}

/// Reads the capability list that the helper is started with.
pub fn parse_capabilities(raw: &str) -> (r: Vec<Capability>)
    ensures
        r@ == spec_parse_capabilities(raw@),
{
    let v = chars_of(raw);
    let spans = split_char_spans(&v, ',');
    let ghost pieces = split_char(v@, ',');
    let mut out: Vec<Capability> = Vec::new();
    let mut k: usize = 0;
    while k < spans.len()
        invariant
            v@ == raw@,
            pieces == split_char(v@, ','),
            spans_cut(v@, spans@, pieces),
            k <= spans@.len(),
            out@ == caps_from(pieces.take(k as int)),
        decreases spans@.len() - k,
    {
        let (a, b) = spans[k];
        let piece = raw.substring_char(a, b);
        let t = crate::text::trim_str(piece);
        assert(pieces.take(k + 1).drop_last() =~= pieces.take(k as int));
        assert(pieces.take(k + 1).last() == piece@);
        if str_eq(t, "kill") {
            out.push(Capability::KillProcess);
        } else if str_eq(t, "renice") {
            out.push(Capability::ReniceProcess);
        }
        k = k + 1;
    }
    assert(pieces.take(spans@.len() as int) =~= pieces);
    out
}

/// Writes capabilities as a comma-separated list.
pub fn serialize_capabilities(capabilities: &[Capability]) -> (r: String)
    ensures
        r@ == spec_serialize_capabilities(capabilities@),
{
    let ghost names = capabilities@.map_values(|c: Capability| cap_name(c));
    let mut out = String::new();
    let mut i: usize = 0;
    while i < capabilities.len()
        invariant
            names == capabilities@.map_values(|c: Capability| cap_name(c)),
            i <= capabilities@.len(),
            out@ == join_with(names.take(i as int), ","@),
        decreases capabilities@.len() - i,
    {
        let ghost cur = names.take(i + 1);
        assert(cur.drop_last() =~= names.take(i as int));
        if i > 0 {
            out.append(",");
        }
        match capabilities[i] {
            Capability::KillProcess => out.append("kill"),
            Capability::ReniceProcess => out.append("renice"),
        }
        assert(out@ =~= join_with(cur, ","@));
        i = i + 1;
    }
    assert(names.take(capabilities@.len() as int) =~= names);
    out
}

// ---------------------------------------------------------------------------
// Requests
// ---------------------------------------------------------------------------

/// What the helper does with a request: answer at once, or signal or
/// renice a process and answer after.
pub enum HelperStep {
    Respond(HelperResponse),
    SendSigkill { pid: u32 },
    SetPriority { pid: u32, nice: i32 },
}

/// The mathematical value of a [`HelperStep`].
pub enum Step {
    Respond { ok: bool, message: Seq<char> },
    SendSigkill { pid: u32 },
    SetPriority { pid: u32, nice: i32 },
}

pub open spec fn step_view(s: HelperStep) -> Step {
    match s {
        HelperStep::Respond(r) => Step::Respond { ok: r.ok, message: r.message@ },
        HelperStep::SendSigkill { pid } => Step::SendSigkill { pid },
        HelperStep::SetPriority { pid, nice } => Step::SetPriority { pid, nice },
    }
}

/// The helper's rules: a health check is answered `ready`; a kill needs the
/// kill capability and a pid above 1 and sends SIGKILL; a renice needs the
/// renice capability, a nice value in -20..=19 and a pid above 1; anything
/// else is refused.
pub open spec fn spec_plan(action: Seq<char>, pid: u32, nice: Option<i32>, caps: Seq<Capability>) -> Step {
    if action == "healthcheck"@ {
        Step::Respond { ok: true, message: "ready"@ }
    } else if action == "kill_process"@ {
        if !caps.contains(Capability::KillProcess) {
            Step::Respond { ok: false, message: "missing capability KillProcess"@ }
        } else if pid <= 1 {
            Step::Respond { ok: false, message: "refusing to signal protected pid"@ }
        } else {
            Step::SendSigkill { pid }
        }
    } else if action == "renice_process"@ {
        if !caps.contains(Capability::ReniceProcess) {
            Step::Respond { ok: false, message: "missing capability ReniceProcess"@ }
        } else if !(nice matches Some(v) && -20 <= v <= 19) {
            Step::Respond { ok: false, message: "invalid nice value"@ }
        } else if pid <= 1 {
            Step::Respond { ok: false, message: "renice failed: refusing to renice protected pid"@ }
        } else {
            Step::SetPriority { pid, nice: nice->0 }
        }
    } else {
        Step::Respond { ok: false, message: "unknown action"@ }
    }
}

/// A successful answer.
pub fn allow(message: String) -> (r: HelperResponse)
    ensures
        r.ok,
        r.message@ == message@,
{
    HelperResponse { ok: true, message }
}

/// A refusal.
pub fn deny(message: &str) -> (r: HelperResponse)
    ensures
        !r.ok,
        r.message@ == message@,
{
    HelperResponse { ok: false, message: message.to_owned() }
}

fn has_cap(caps: &[Capability], c: Capability) -> (r: bool)
    ensures
        r == caps@.contains(c),
{
    let mut i: usize = 0;
    while i < caps.len()
        invariant
            i <= caps@.len(),
            forall|j: int| 0 <= j < i ==> caps@[j] != c,
        decreases caps@.len() - i,
    {
        if caps[i] == c {
            assert(caps@[i as int] == c);
            return true;
        }
        i = i + 1;
    }
    false
}

/// Decides what to do with a request, given the helper's capabilities.
pub fn plan_request(req: &HelperRequest, caps: &[Capability]) -> (r: HelperStep)
    ensures
        step_view(r) == spec_plan(req.action@, req.pid, req.nice, caps@),
{
    let a = req.action.as_str();
    if str_eq(a, "healthcheck") {
        HelperStep::Respond(allow("ready".to_owned()))
    } else if str_eq(a, "kill_process") {
        if !has_cap(caps, Capability::KillProcess) {
            HelperStep::Respond(deny("missing capability KillProcess"))
        } else if req.pid <= 1 {
            HelperStep::Respond(deny("refusing to signal protected pid"))
        } else {
            HelperStep::SendSigkill { pid: req.pid }
        }
    } else if str_eq(a, "renice_process") {
        if !has_cap(caps, Capability::ReniceProcess) {
            HelperStep::Respond(deny("missing capability ReniceProcess"))
        } else {
            match req.nice {
                Some(v) if -20 <= v && v <= 19 => {
                    if req.pid <= 1 {
                        HelperStep::Respond(deny("renice failed: refusing to renice protected pid"))
                    } else {
                        HelperStep::SetPriority { pid: req.pid, nice: v }
                    }
                },
                _ => HelperStep::Respond(deny("invalid nice value")),
            }
        }
    } else {
        HelperStep::Respond(deny("unknown action"))
    }
}

/// The answer after SIGKILL was sent to `pid`, or failed with `error`.
pub open spec fn spec_kill_outcome(pid: u32, error: Option<Seq<char>>) -> (bool, Seq<char>) {
    match error {
        None => (true, "sent SIGKILL to pid "@ + decimal(pid as nat)),
        Some(e) => (false, "kill failed: "@ + e),
    }
}

pub fn kill_outcome(pid: u32, outcome: Result<(), String>) -> (r: HelperResponse)
    ensures
        (r.ok, r.message@) == spec_kill_outcome(
            pid,
            match outcome {
                Ok(()) => None,
                Err(e) => Some(e@),
            },
        ),
{
    match outcome {
        Ok(()) => {
            let mut m = "sent SIGKILL to pid ".to_owned();
            let d = u64_to_decimal(pid as u64);
            m.append(d.as_str());
            allow(m)
        },
        Err(e) => {
            let mut m = "kill failed: ".to_owned();
            m.append(e.as_str());
            HelperResponse { ok: false, message: m }
        },
    }
}

/// The answer after the priority of `pid` was set to `nice`, or failed.
pub open spec fn spec_renice_outcome(pid: u32, nice: i32, error: Option<Seq<char>>) -> (
    bool,
    Seq<char>,
) {
    match error {
        None => (true, "set pid "@ + decimal(pid as nat) + " nice "@ + signed_decimal(
            nice as int,
        )),
        Some(e) => (false, "renice failed: "@ + e),
    }
}

pub fn renice_outcome(pid: u32, nice: i32, outcome: Result<(), String>) -> (r: HelperResponse)
    ensures
        (r.ok, r.message@) == spec_renice_outcome(
            pid,
            nice,
            match outcome {
                Ok(()) => None,
                Err(e) => Some(e@),
            },
        ),
{
    match outcome {
        Ok(()) => {
            let mut m = "set pid ".to_owned();
            let d = u64_to_decimal(pid as u64);
            m.append(d.as_str());
            m.append(" nice ");
            let n = i64_to_decimal(nice as i64);
            m.append(n.as_str());
            allow(m)
        },
        Err(e) => {
            let mut m = "renice failed: ".to_owned();
            m.append(e.as_str());
            HelperResponse { ok: false, message: m }
        },
    }
}

/// The audit record of a request that the helper answered.
pub fn request_audit_event(ts: u64, req: &HelperRequest, resp: &HelperResponse) -> (r: AuditEvent)
    ensures
        r.ts == ts,
        r.action@ == req.action@,
        r.target@ == "pid:"@ + decimal(req.pid as nat),
        r.result@ == if resp.ok {
            "ok: "@ + resp.message@
        } else {
            "denied: "@ + resp.message@
        },
        r.actor@ == "operator"@,
        r.sig is None,
        r.policy_hash is None,
        r.anchor_txid is None,
        r.anchor_blockheight is None,
        r.anchor_merkle_root is None,
{
    let mut target = "pid:".to_owned();
    let d = u64_to_decimal(req.pid as u64);
    target.append(d.as_str());
    let mut result = if resp.ok {
        "ok: ".to_owned()
    } else {
        "denied: ".to_owned()
    };
    result.append(resp.message.as_str());
    AuditEvent {
        ts,
        action: req.action.clone(),
        target,
        result,
        actor: "operator".to_owned(),
        sig: None,
        policy_hash: None,
        anchor_txid: None,
        anchor_blockheight: None,
        anchor_merkle_root: None,
    }
}

// ---------------------------------------------------------------------------
// Laws of the helper
// ---------------------------------------------------------------------------

/// The helper signals a process only with the kill capability, and never
/// pid 0 or 1; it renices only with the renice capability, a nice value in
/// -20..=19, and never pid 0 or 1.
pub proof fn law_helper_acts_only_when_allowed(
    action: Seq<char>,
    pid: u32,
    nice: Option<i32>,
    caps: Seq<Capability>,
)
    ensures
        spec_plan(action, pid, nice, caps) matches Step::SendSigkill { pid: p } ==> p == pid && p
            > 1 && caps.contains(Capability::KillProcess) && action == "kill_process"@,
        spec_plan(action, pid, nice, caps) matches Step::SetPriority { pid: p, nice: n } ==> p
            == pid && p > 1 && -20 <= n <= 19 && nice == Some(n) && caps.contains(
            Capability::ReniceProcess,
        ) && action == "renice_process"@,
{
}

/// The helper does act when it is allowed to: with the kill capability, a
/// kill of a pid above 1 sends SIGKILL to that pid; with the renice
/// capability, a renice of a pid above 1 to a nice value in -20..=19 sets
/// that priority; and a health check is answered `ready`.
pub proof fn law_helper_acts_when_allowed(pid: u32, nice: Option<i32>, v: i32, caps: Seq<Capability>)
    ensures
        caps.contains(Capability::KillProcess) && pid > 1 ==> spec_plan(
            "kill_process"@,
            pid,
            nice,
            caps,
        ) == (Step::SendSigkill { pid }),
        caps.contains(Capability::ReniceProcess) && pid > 1 && -20 <= v <= 19 ==> spec_plan(
            "renice_process"@,
            pid,
            Some(v),
            caps,
        ) == (Step::SetPriority { pid, nice: v }),
        spec_plan("healthcheck"@, pid, nice, caps) == (Step::Respond { ok: true, message: "ready"@ }),
{
    reveal_strlit("healthcheck");
    reveal_strlit("kill_process");
    reveal_strlit("renice_process");
    assert("healthcheck"@.len() == 11);
    assert("kill_process"@.len() == 12);
    assert("renice_process"@.len() == 14);
    assert("kill_process"@ != "healthcheck"@);
    assert("renice_process"@ != "healthcheck"@);
    assert("renice_process"@ != "kill_process"@);
}

proof fn lemma_split_char_single(b: Seq<char>, c: char)
    requires
        !b.contains(c),
    ensures
        split_char(b, c) == seq![b],
    decreases b.len(),
{
    if b.len() > 0 {
        assert(!b.drop_last().contains(c)) by {
            if b.drop_last().contains(c) {
                let i = choose|i: int| 0 <= i < b.drop_last().len() && b.drop_last()[i] == c;
                assert(b[i] == c);
            }
        }
        lemma_split_char_single(b.drop_last(), c);
        assert(b.last() != c) by {
            assert(b[b.len() - 1] == b.last());
        }
        assert(b.drop_last().push(b.last()) =~= b);
        assert(split_char(b, c) =~= seq![b]);
    } else {
        assert(b =~= Seq::<char>::empty());
    }
}

proof fn lemma_split_char_append(a: Seq<char>, b: Seq<char>, c: char)
    requires
        !b.contains(c),
    ensures
        split_char(a + seq![c] + b, c) == split_char(a, c).push(b),
    decreases b.len(),
{
    lemma_split_char_nonempty(a, c);
    if b.len() == 0 {
        assert((a + seq![c] + b).drop_last() =~= a);
        assert(b =~= Seq::<char>::empty());
    } else {
        let b2 = b.drop_last();
        assert(!b2.contains(c)) by {
            if b2.contains(c) {
                let i = choose|i: int| 0 <= i < b2.len() && b2[i] == c;
                assert(b[i] == c);
            }
        }
        lemma_split_char_append(a, b2, c);
        assert((a + seq![c] + b).drop_last() =~= a + seq![c] + b2);
        assert(b.last() != c) by {
            assert(b[b.len() - 1] == b.last());
        }
        assert(b2.push(b.last()) =~= b);
        assert(split_char(a + seq![c] + b, c) =~= split_char(a, c).push(b));
    }
}

proof fn lemma_cap_name_facts(c: Capability)
    ensures
        !cap_name(c).contains(','),
        trim(cap_name(c)) == cap_name(c),
        cap_of(cap_name(c)) == Some(c),
{
    reveal_strlit("kill");
    reveal_strlit("renice");
    let s = cap_name(c);
    assert(!s.contains(',')) by {
        if s.contains(',') {
            let i = choose|i: int| 0 <= i < s.len() && s[i] == ',';
        }
    }
    assert(!is_ws(s[0]));
    assert(!is_ws(s[s.len() - 1]));
    assert(skip_ws_from(s, 0) == 0);
    assert(back_ws_from(s, s.len() as int, 0) == s.len());
    assert(trim(s) =~= s);
    assert("renice"@[0] != "kill"@[0]);
}

/// Writing capabilities down and reading them back gives the same list, so
/// a helper subprocess is started with exactly the capabilities asked for.
pub proof fn law_capabilities_round_trip(caps: Seq<Capability>)
    ensures
        spec_parse_capabilities(spec_serialize_capabilities(caps)) == caps,
    decreases caps.len(),
{
    let names = caps.map_values(|c: Capability| cap_name(c));
    assert(caps_from(Seq::<Seq<char>>::empty()) =~= Seq::<Capability>::empty());
    if caps.len() == 0 {
        assert(spec_serialize_capabilities(caps) =~= Seq::<char>::empty());
        assert(split_char(Seq::<char>::empty(), ',') =~= seq![Seq::<char>::empty()]);
        assert(seq![Seq::<char>::empty()].drop_last() =~= Seq::<Seq<char>>::empty());
        assert(trim(Seq::<char>::empty()) =~= Seq::<char>::empty());
        reveal_strlit("kill");
        reveal_strlit("renice");
        assert(caps =~= Seq::<Capability>::empty());
        assert(cap_of(Seq::<char>::empty()) is None);
        assert(caps_from(seq![Seq::<char>::empty()]) =~= Seq::<Capability>::empty());
    } else if caps.len() == 1 {
        lemma_cap_name_facts(caps[0]);
        assert(spec_serialize_capabilities(caps) == cap_name(caps[0]));
        lemma_split_char_single(cap_name(caps[0]), ',');
        assert(seq![cap_name(caps[0])].drop_last() =~= Seq::<Seq<char>>::empty());
        assert(caps =~= seq![caps[0]]);
        assert(caps_from(seq![cap_name(caps[0])]) =~= seq![caps[0]]);
    } else {
        let front = caps.drop_last();
        let c = caps.last();
        law_capabilities_round_trip(front);
        lemma_cap_name_facts(c);
        assert(names.drop_last() =~= front.map_values(|c: Capability| cap_name(c)));
        reveal_strlit(",");
        assert(","@ =~= seq![',']);
        let a = spec_serialize_capabilities(front);
        assert(spec_serialize_capabilities(caps) == a + seq![','] + cap_name(c));
        lemma_split_char_append(a, cap_name(c), ',');
        let p = split_char(a, ',').push(cap_name(c));
        assert(p.drop_last() =~= split_char(a, ','));
        assert(caps =~= front.push(c));
        assert(caps_from(p) == caps_from(split_char(a, ',')).push(c));
    }
}

} // verus!
