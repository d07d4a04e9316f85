//! The execution policy: which actions the operator may run, EVRUS action
//! policies, and the cooldown between kills.
use vstd::prelude::*;

use crate::auth::{spec_allows, AuthContext, AuthMode, Permission, Role};
use crate::command::{Command, CommandAction};
use crate::digest::{hex, sha256_hex, spec_sha256};
use crate::text::{chars_of, eq_ignore_case, str_eq, str_eq_ignore_case};

verus! {

broadcast use vstd::string::group_string_axioms;

/// `std::time::Instant`, a reading of the monotonic clock.
#[verifier::external_type_specification]
#[verifier::external_body]
pub struct ExInstant(std::time::Instant);

/// `Instant::now`: the current reading of the monotonic clock. Nothing is
/// stated of it.
#[verifier::external_body]
pub(crate) fn instant_now() -> std::time::Instant {
    std::time::Instant::now()
}

/// `Instant::elapsed`, in whole milliseconds. Nothing is stated of the
/// value: it depends on the clock.
#[verifier::external_body]
pub(crate) fn millis_since(t: &std::time::Instant) -> u128 {
    t.elapsed().as_millis()
}

/// The constraints of an EVRUS action policy.
#[derive(Debug, Clone)]
pub struct SystemActionConstraints {
    pub allowed_roles: Vec<String>,
    pub require_capability: Option<String>,
    pub deny_on_hosts: Vec<String>,
    pub require_confirmation: bool,
}

/// An EVRUS policy for one action (or `*` for all of them).
#[derive(Debug, Clone)]
pub struct SystemActionPolicy {
    pub action: String,
    pub constraints: SystemActionConstraints,
}

/// What an allowed action is recorded with.
#[derive(Debug, Clone)]
pub struct PolicyDecision {
    pub policy_hash: Option<String>,
}

/// The permission that an action needs.
pub open spec fn permission_of(c: Command) -> Permission {
    match c {
        Command::KillProcess { .. } => Permission::KillProcess,
        Command::ReniceProcess { .. } => Permission::ReniceProcess,
        _ => Permission::ViewSystemMetrics,
    }
}

/// The name under which EVRUS policies refer to an action.
pub open spec fn action_name(c: Command) -> Seq<char> {
    match c {
        Command::KillProcess { .. } => "kill_process"@,
        Command::ReniceProcess { .. } => "renice_process"@,
        _ => "read_only"@,
    }
}

pub fn permission_for(action: &CommandAction) -> (r: Permission)
    ensures
        r == permission_of(action@),
{
    match action {
        CommandAction::KillProcess { .. } => Permission::KillProcess,
        CommandAction::ReniceProcess { .. } => Permission::ReniceProcess,
        _ => Permission::ViewSystemMetrics,
    }
}

pub(crate) fn action_name_exec(action: &CommandAction) -> (r: &'static str)
    ensures
        r@ == action_name(action@),
{
    match action {
        CommandAction::KillProcess { .. } => "kill_process",
        CommandAction::ReniceProcess { .. } => "renice_process",
        _ => "read_only",
    }
}

/// A host pattern: `prefix*` matches hosts that start with `prefix`;
/// anything else must equal the host name.
pub open spec fn spec_host_pattern_matches(hostname: Seq<char>, pattern: Seq<char>) -> bool {
    if pattern.len() > 0 && pattern.last() == '*' {
        let prefix = pattern.drop_last();
        prefix.len() <= hostname.len() && hostname.subrange(0, prefix.len() as int) == prefix
    } else {
        hostname == pattern
    }
}

pub fn host_pattern_matches(hostname: &str, pattern: &str) -> (r: bool)
    ensures
        r == spec_host_pattern_matches(hostname@, pattern@),
{
    let h = chars_of(hostname);
    let p = chars_of(pattern);
    let pn = p.len();
    if pn > 0 && p[pn - 1] == '*' {
        let k = pn - 1;
        if k > h.len() {
            return false;
        }
        let mut i: usize = 0;
        while i < k
            invariant
                h@ == hostname@,
                p@ == pattern@,
                p@.len() > 0,
                p@.last() == '*',
                k == p@.len() - 1,
                k <= h@.len(),
                i <= k,
                forall|j: int| 0 <= j < i ==> h@[j] == p@[j],
            decreases k - i,
        {
            if h[i] != p[i] {
                assert(h@.subrange(0, k as int)[i as int] != p@.drop_last()[i as int]);
                return false;
            }
            i = i + 1;
        }
        assert(h@.subrange(0, k as int) =~= p@.drop_last());
        true
    } else {
        crate::text::vec_eq(&h, &p)
    }
}

/// The first pattern among `pats[i..]` that matches the host.
pub open spec fn first_deny_match(hostname: Seq<char>, pats: Seq<String>, i: int) -> Option<
    Seq<char>,
>
    decreases pats.len() - i,
{
    if i < 0 || i >= pats.len() {
        None
    } else if spec_host_pattern_matches(hostname, pats[i]@) {
        Some(pats[i]@)
    } else {
        first_deny_match(hostname, pats, i + 1)
    }
}

/// Whether one of the allowed roles names `role`, without regard to ASCII case.
pub open spec fn role_listed(roles: Seq<String>, role: Role) -> bool {
    exists|i: int| 0 <= i < roles.len() && eq_ignore_case(#[trigger] roles[i]@, role.name())
}

/// What an EVRUS policy says of an action by an operator with `role` on
/// `hostname`. A policy for another action (and not `*`) does not apply.
/// Otherwise the role must be listed (when a list is given), the required
/// capability must be the action's (when one is required), no deny
/// pattern may match the host, and a renice is refused when confirmation
/// is required.
pub open spec fn spec_evrus_check(
    c: Command,
    role: Role,
    hostname: Seq<char>,
    policy: SystemActionPolicy,
) -> Result<(), Seq<char>> {
    let k = policy.constraints;
    if policy.action@ != action_name(c) && policy.action@ != "*"@ {
        Ok(())
    } else if k.allowed_roles@.len() > 0 && !role_listed(k.allowed_roles@, role) {
        Err("policy denied: EVRUS allowed_roles mismatch"@)
    } else if k.require_capability is Some && !eq_ignore_case(
        k.require_capability->0@,
        permission_of(c).name(),
    ) {
        Err("policy denied: EVRUS require_capability mismatch ("@ + k.require_capability->0@
            + ")"@)
    } else if first_deny_match(hostname, k.deny_on_hosts@, 0) is Some {
        Err("policy denied: host matched deny pattern "@ + first_deny_match(
            hostname,
            k.deny_on_hosts@,
            0,
        )->0)
    } else if k.require_confirmation && c is ReniceProcess {
        Err("policy denied: EVRUS requires explicit confirmation for renice"@)
    } else {
        Ok(())
    }
}

pub open spec fn unit_view(r: Result<(), String>) -> Result<(), Seq<char>> {
    match r {
        Ok(()) => Ok(()),
        Err(e) => Err(e@),
    }
}

pub open spec fn opt_string_view(o: Option<String>) -> Option<Seq<char>> {
    match o {
        Some(s) => Some(s@),
        None => None,
    }
}

/// The message of an action that the role does not permit.
pub open spec fn permission_denied_message(auth: AuthContext, p: Permission) -> Seq<char> {
    "policy denied: role="@ + auth.role.name() + " mode="@ + auth.mode.name()
        + " missing permission for "@ + p.name()
}

/// The policy's answer to an action, given how many milliseconds have
/// passed since the last kill (none when there was no kill): the role must
/// permit the action, an EVRUS policy must not refuse it, and a kill must
/// come at least the cooldown after the last one.
pub open spec fn spec_evaluate(
    auth: AuthContext,
    hostname: Seq<char>,
    evrus_policy: Option<SystemActionPolicy>,
    policy_hash: Option<Seq<char>>,
    cooldown_ms: u64,
    c: Command,
    since_kill_ms: Option<u128>,
) -> Result<Option<Seq<char>>, Seq<char>> {
    if !spec_allows(auth, permission_of(c)) {
        Err(permission_denied_message(auth, permission_of(c)))
    } else if evrus_policy is Some && spec_evrus_check(
        c,
        auth.role,
        hostname,
        evrus_policy->0,
    ) is Err {
        Err(spec_evrus_check(c, auth.role, hostname, evrus_policy->0)->Err_0)
    } else if c is KillProcess && since_kill_ms is Some && since_kill_ms->0 < cooldown_ms {
        Err("policy denied: kill action in cooldown window"@)
    } else {
        Ok(policy_hash)
    }
}

pub open spec fn decision_view(r: Result<PolicyDecision, String>) -> Result<
    Option<Seq<char>>,
    Seq<char>,
> {
    match r {
        Ok(d) => Ok(opt_string_view(d.policy_hash)),
        Err(e) => Err(e@),
    }
}

/// What an inline policy setting held.
#[derive(Debug, Clone, Copy, PartialEq, Eq, Structural)]
pub enum InlineSource {
    Unset,
    Valid,
    Invalid,
}

/// What a policy file setting named, and what was found there.
#[derive(Debug, Clone)]
pub enum FileSource {
    Unset,
    Unreadable { path: String },
    Valid { path: String },
    Invalid { path: String },
}

/// The warning about an inline setting named `var`.
pub open spec fn inline_warning(var: Seq<char>, s: InlineSource) -> Seq<Seq<char>> {
    if s == InlineSource::Invalid {
        seq![var + " contains invalid JSON"@]
    } else {
        Seq::empty()
    }
}

/// The warning about a file setting named `var`.
pub open spec fn file_warning(var: Seq<char>, s: FileSource) -> Seq<Seq<char>> {
    match s {
        FileSource::Unreadable { path } => seq![var + " '"@ + path@ + "' not readable"@],
        FileSource::Invalid { path } => seq![var + " '"@ + path@ + "' contains invalid JSON"@],
        _ => Seq::empty(),
    }
}

/// The warnings about the policy settings, in the order EVRUS inline,
/// EVRUS file, alert inline, alert file.
pub open spec fn spec_policy_load_warnings(
    evrus_json: InlineSource,
    evrus_file: FileSource,
    alert_json: InlineSource,
    alert_file: FileSource,
) -> Seq<Seq<char>> {
    inline_warning("MANTICORE_EVRUS_POLICY_JSON"@, evrus_json) + file_warning(
        "MANTICORE_EVRUS_POLICY_PATH"@,
        evrus_file,
    ) + inline_warning("MANTICORE_ALERT_POLICY_JSON"@, alert_json) + file_warning(
        "MANTICORE_ALERT_POLICY_PATH"@,
        alert_file,
    )
}

pub open spec fn string_seq_views(v: Seq<String>) -> Seq<Seq<char>> {
    v.map_values(|s: String| s@)
}

fn push_inline_warning(out: &mut Vec<String>, var: &str, s: InlineSource)
    ensures
        string_seq_views(final(out)@) == string_seq_views(old(out)@) + inline_warning(var@, s),
{
    let ghost before = out@;
    if s == InlineSource::Invalid {
        let mut w = var.to_owned();
        w.append(" contains invalid JSON");
        out.push(w);
        assert(string_seq_views(out@) =~= string_seq_views(before) + inline_warning(var@, s));
    } else {
        assert(string_seq_views(out@) =~= string_seq_views(before) + inline_warning(var@, s));
    }
}

fn push_file_warning(out: &mut Vec<String>, var: &str, s: &FileSource)
    ensures
        string_seq_views(final(out)@) == string_seq_views(old(out)@) + file_warning(var@, *s),
{
    let ghost before = out@;
    match s {
        FileSource::Unreadable { path } => {
            let mut w = var.to_owned();
            w.append(" '");
            w.append(path.as_str());
            w.append("' not readable");
            out.push(w);
        },
        FileSource::Invalid { path } => {
            let mut w = var.to_owned();
            w.append(" '");
            w.append(path.as_str());
            w.append("' contains invalid JSON");
            out.push(w);
        },
        _ => {},
    }
    assert(string_seq_views(out@) =~= string_seq_views(before) + file_warning(var@, *s));
}

/// The checkpoint between a parsed command and its execution.
pub struct ExecutionPolicy {
    auth: AuthContext,
    last_kill_at: Option<std::time::Instant>,
    kill_cooldown_ms: u64,
    hostname: String,
    evrus_policy: Option<SystemActionPolicy>,
    evrus_policy_hash: Option<String>,
}

/// The time that must pass between two kills.
pub const KILL_COOLDOWN_MS: u64 = 2000;

impl ExecutionPolicy {
    /// The warnings to show about the policy settings: an inline policy
    /// that is not valid JSON of its kind, and a policy file that cannot
    /// be read or does not hold valid JSON of its kind.
    pub fn policy_load_warnings(
        evrus_json: InlineSource,
        evrus_file: &FileSource,
        alert_json: InlineSource,
        alert_file: &FileSource,
    ) -> (r: Vec<String>)
        ensures
            string_seq_views(r@) == spec_policy_load_warnings(
                evrus_json,
                *evrus_file,
                alert_json,
                *alert_file,
            ),
    {
        let mut out: Vec<String> = Vec::new();
        assert(string_seq_views(out@) =~= Seq::<Seq<char>>::empty());
        push_inline_warning(&mut out, "MANTICORE_EVRUS_POLICY_JSON", evrus_json);
        push_file_warning(&mut out, "MANTICORE_EVRUS_POLICY_PATH", evrus_file);
        push_inline_warning(&mut out, "MANTICORE_ALERT_POLICY_JSON", alert_json);
        push_file_warning(&mut out, "MANTICORE_ALERT_POLICY_PATH", alert_file);
        proof {
            let e = Seq::<Seq<char>>::empty();
            assert(e + inline_warning("MANTICORE_EVRUS_POLICY_JSON"@, evrus_json) =~= inline_warning(
                "MANTICORE_EVRUS_POLICY_JSON"@,
                evrus_json,
            ));
        }
        out
    }

    pub closed spec fn auth_spec(&self) -> AuthContext {
        self.auth
    }

    pub closed spec fn hostname_spec(&self) -> Seq<char> {
        self.hostname@
    }

    pub closed spec fn evrus_policy_spec(&self) -> Option<SystemActionPolicy> {
        self.evrus_policy
    }

    pub closed spec fn policy_hash_spec(&self) -> Option<Seq<char>> {
        opt_string_view(self.evrus_policy_hash)
    }

    pub closed spec fn cooldown_spec(&self) -> u64 {
        self.kill_cooldown_ms
    }

    /// Whether a kill has been recorded.
    pub closed spec fn has_killed(&self) -> bool {
        self.last_kill_at is Some
    }

    /// The answer to an action, given the time since the last kill.
    pub open spec fn answer(&self, c: Command, since_kill_ms: Option<u128>) -> Result<
        Option<Seq<char>>,
        Seq<char>,
    > {
        spec_evaluate(
            self.auth_spec(),
            self.hostname_spec(),
            self.evrus_policy_spec(),
            self.policy_hash_spec(),
            self.cooldown_spec(),
            c,
            since_kill_ms,
        )
    }

    /// A policy for the operator `auth` on `hostname`. The EVRUS policy, if
    /// any, is identified by the SHA-256 digest (in hexadecimal) of its
    /// JSON form `evrus_policy_json`.
    pub fn new(
        auth: AuthContext,
        evrus_policy: Option<SystemActionPolicy>,
        evrus_policy_json: Option<String>,
        hostname: String,
    ) -> (r: ExecutionPolicy)
        ensures
            r.auth_spec() == auth,
            r.hostname_spec() == hostname@,
            r.evrus_policy_spec() == evrus_policy,
            r.cooldown_spec() == KILL_COOLDOWN_MS,
            !r.has_killed(),
            r.policy_hash_spec() == match (evrus_policy, evrus_policy_json) {
                (Some(_), Some(j)) => Some(hex(spec_sha256(vstd::utf8::encode_utf8(j@)))),
                _ => None::<Seq<char>>,
            },
    {
        let evrus_policy_hash = match (&evrus_policy, &evrus_policy_json) {
            (Some(_), Some(j)) => Some(sha256_hex(j.as_str().as_bytes())),
            _ => None,
        };
        ExecutionPolicy {
            auth,
            last_kill_at: None,
            kill_cooldown_ms: KILL_COOLDOWN_MS,
            hostname,
            evrus_policy,
            evrus_policy_hash,
        }
    }

    #[verifier::loop_isolation(false)]
    fn evaluate_evrus_policy(&self, action: &CommandAction, policy: &SystemActionPolicy) -> (r:
        Result<(), String>)
        ensures
            unit_view(r) == spec_evrus_check(action@, self.auth.role, self.hostname@, *policy),
    {
        let name = action_name_exec(action);
        if !str_eq(policy.action.as_str(), name) && !str_eq(policy.action.as_str(), "*") {
            return Ok(());
        }
        let k = &policy.constraints;
        let role = self.auth.role.as_str();
        if k.allowed_roles.len() > 0 {
            let mut found = false;
            let mut i: usize = 0;
            while i < k.allowed_roles.len()
                invariant
                    i <= k.allowed_roles@.len(),
                    role@ == self.auth.role.name(),
                    found <==> exists|j: int|
                        0 <= j < i && eq_ignore_case(#[trigger] k.allowed_roles@[j]@, role@),
                decreases k.allowed_roles@.len() - i,
            {
                if str_eq_ignore_case(k.allowed_roles[i].as_str(), role) {
                    found = true;
                }
                i = i + 1;
            }
            if !found {
                return Err("policy denied: EVRUS allowed_roles mismatch".to_owned());
            }
        }
        match &k.require_capability {
            Some(required) => {
                let cap = permission_for(action).as_str();
                if !str_eq_ignore_case(required.as_str(), cap) {
                    let mut e = "policy denied: EVRUS require_capability mismatch (".to_owned();
                    e.append(required.as_str());
                    e.append(")");
                    return Err(e);
                }
            },
            None => {},
        }
        let mut i: usize = 0;
        while i < k.deny_on_hosts.len()
            invariant
                i <= k.deny_on_hosts@.len(),
                first_deny_match(self.hostname@, k.deny_on_hosts@, i as int) == first_deny_match(
                    self.hostname@,
                    k.deny_on_hosts@,
                    0,
                ),
            decreases k.deny_on_hosts@.len() - i,
        {
            let pattern = &k.deny_on_hosts[i];
            if host_pattern_matches(self.hostname.as_str(), pattern.as_str()) {
                let mut e = "policy denied: host matched deny pattern ".to_owned();
                e.append(pattern.as_str());
                return Err(e);
            }
            i = i + 1;
        }
        if k.require_confirmation && matches!(action, CommandAction::ReniceProcess { .. }) {
            return Err("policy denied: EVRUS requires explicit confirmation for renice".to_owned());
        }
        Ok(())
    }

    /// The policy's answer to an action, given the milliseconds since the
    /// last kill.
    pub fn evaluate_at(&self, action: &CommandAction, since_kill_ms: Option<u128>) -> (r: Result<
        PolicyDecision,
        String,
    >)
        ensures
            decision_view(r) == self.answer(action@, since_kill_ms),
    {
        let permission = permission_for(action);
        if !self.auth.allows(permission) {
            let mut e = "policy denied: role=".to_owned();
            e.append(self.auth.role.as_str());
            e.append(" mode=");
            e.append(self.auth.mode.as_str());
            e.append(" missing permission for ");
            e.append(permission.as_str());
            return Err(e);
        }
        match &self.evrus_policy {
            Some(p) => {
                match self.evaluate_evrus_policy(action, p) {
                    Ok(()) => {},
                    Err(e) => {
                        return Err(e);
                    },
                }
            },
            None => {},
        }
        if let CommandAction::KillProcess { .. } = action {
            match since_kill_ms {
                Some(ms) => {
                    if ms < self.kill_cooldown_ms as u128 {
                        return Err("policy denied: kill action in cooldown window".to_owned());
                    }
                },
                None => {},
            }
        }
        Ok(PolicyDecision { policy_hash: self.evrus_policy_hash.clone() })
    }

    /// Decides whether an action may run now.
    pub fn evaluate(&self, action: &CommandAction) -> (r: Result<PolicyDecision, String>)
        ensures
            self.has_killed() ==> exists|ms: u128|
                decision_view(r) == #[trigger] self.answer(action@, Some(ms)),
            !self.has_killed() ==> decision_view(r) == self.answer(action@, None),
    {
        let since = match &self.last_kill_at {
            Some(t) => Some(millis_since(t)),
            None => None,
        };
        self.evaluate_at(action, since)
    }

    /// Notes that an action ran; a kill starts the cooldown.
    pub fn record(&mut self, action: &CommandAction)
        ensures
            final(self).auth_spec() == old(self).auth_spec(),
            final(self).hostname_spec() == old(self).hostname_spec(),
            final(self).evrus_policy_spec() == old(self).evrus_policy_spec(),
            final(self).policy_hash_spec() == old(self).policy_hash_spec(),
            final(self).cooldown_spec() == old(self).cooldown_spec(),
            final(self).has_killed() == (old(self).has_killed() || action@ is KillProcess),
    {
        if matches!(action, CommandAction::KillProcess { .. }) {
            self.last_kill_at = Some(instant_now());
        }
    }

    pub fn current_policy_hash(&self) -> (r: Option<String>)
        ensures
            opt_string_view(r) == self.policy_hash_spec(),
    {
        self.evrus_policy_hash.clone()
    }
}

// ---------------------------------------------------------------------------
// Laws of the execution policy
// ---------------------------------------------------------------------------

/// An action that the role does not permit is refused, whatever else holds.
pub proof fn law_unpermitted_actions_are_refused(
    auth: AuthContext,
    hostname: Seq<char>,
    evrus_policy: Option<SystemActionPolicy>,
    policy_hash: Option<Seq<char>>,
    cooldown_ms: u64,
    c: Command,
    since_kill_ms: Option<u128>,
)
    requires
        !spec_allows(auth, permission_of(c)),
    ensures
        spec_evaluate(auth, hostname, evrus_policy, policy_hash, cooldown_ms, c, since_kill_ms) is Err,
{
}

/// A kill within the cooldown of the previous one is refused.
pub proof fn law_kill_cooldown(
    auth: AuthContext,
    hostname: Seq<char>,
    evrus_policy: Option<SystemActionPolicy>,
    policy_hash: Option<Seq<char>>,
    cooldown_ms: u64,
    pid: u32,
    ms: u128,
)
    requires
        ms < cooldown_ms,
    ensures
        spec_evaluate(
            auth,
            hostname,
            evrus_policy,
            policy_hash,
            cooldown_ms,
            Command::KillProcess { pid },
            Some(ms),
        ) is Err,
{
}

/// An allowed action carries the hash of the EVRUS policy.
pub proof fn law_allowed_actions_carry_policy_hash(
    auth: AuthContext,
    hostname: Seq<char>,
    evrus_policy: Option<SystemActionPolicy>,
    policy_hash: Option<Seq<char>>,
    cooldown_ms: u64,
    c: Command,
    since_kill_ms: Option<u128>,
)
    ensures
        spec_evaluate(auth, hostname, evrus_policy, policy_hash, cooldown_ms, c, since_kill_ms) is Ok
            ==> spec_evaluate(
            auth,
            hostname,
            evrus_policy,
            policy_hash,
            cooldown_ms,
            c,
            since_kill_ms,
        ) == Ok::<Option<Seq<char>>, Seq<char>>(policy_hash),
{
}

/// An EVRUS policy for a different action does not restrict this one.
pub proof fn law_other_action_policy_ignored(
    c: Command,
    role: Role,
    hostname: Seq<char>,
    policy: SystemActionPolicy,
)
    requires
        policy.action@ != action_name(c),
        policy.action@ != "*"@,
    ensures
        spec_evrus_check(c, role, hostname, policy) == Ok::<(), Seq<char>>(()),
{
}

/// A host listed exactly in the deny patterns is refused by an applicable
/// policy that its role and capability constraints let through.
pub proof fn law_denied_host_is_refused(
    c: Command,
    role: Role,
    hostname: Seq<char>,
    policy: SystemActionPolicy,
    i: int,
)
    requires
        0 <= i < policy.constraints.deny_on_hosts@.len(),
        spec_host_pattern_matches(hostname, policy.constraints.deny_on_hosts@[i]@),
    ensures
        spec_evrus_check(c, role, hostname, policy) is Ok ==> (policy.action@ != action_name(c)
            && policy.action@ != "*"@),
{
    lemma_first_deny_match_found(hostname, policy.constraints.deny_on_hosts@, 0, i);
}

/// An applicable EVRUS policy (for the action's name or for `*`) whose
/// list of allowed roles is not empty and names no role equal, up to ASCII
/// case, to the operator's, refuses the action with the allowed-roles
/// message; an action that the role permits is then refused with that
/// message by the whole evaluation too, whatever the time since the last
/// kill.
pub proof fn law_unlisted_role_is_refused(
    p: ExecutionPolicy,
    k: SystemActionPolicy,
    c: Command,
    since_kill_ms: Option<u128>,
)
    requires
        p.evrus_policy_spec() == Some(k),
        k.action@ == action_name(c) || k.action@ == "*"@,
        k.constraints.allowed_roles@.len() > 0,
        forall|i: int|
            0 <= i < k.constraints.allowed_roles@.len() ==> !eq_ignore_case(
                #[trigger] k.constraints.allowed_roles@[i]@,
                p.auth_spec().role.name(),
            ),
    ensures
        spec_evrus_check(c, p.auth_spec().role, p.hostname_spec(), k) == Err::<(), Seq<char>>(
            "policy denied: EVRUS allowed_roles mismatch"@,
        ),
        spec_allows(p.auth_spec(), permission_of(c)) ==> p.answer(c, since_kill_ms) == Err::<
            Option<Seq<char>>,
            Seq<char>,
        >("policy denied: EVRUS allowed_roles mismatch"@),
{
}

/// An applicable EVRUS policy that lets the role through but requires a
/// capability other than the one the action needs (compared without
/// regard to ASCII case) refuses the action, naming that capability.
pub proof fn law_capability_mismatch_is_refused(
    c: Command,
    role: Role,
    hostname: Seq<char>,
    k: SystemActionPolicy,
    cap: String,
)
    requires
        k.action@ == action_name(c) || k.action@ == "*"@,
        k.constraints.allowed_roles@.len() == 0 || role_listed(k.constraints.allowed_roles@, role),
        k.constraints.require_capability == Some(cap),
        !eq_ignore_case(cap@, permission_of(c).name()),
    ensures
        spec_evrus_check(c, role, hostname, k) == Err::<(), Seq<char>>(
            "policy denied: EVRUS require_capability mismatch ("@ + cap@ + ")"@,
        ),
{
}

/// An applicable EVRUS policy whose role and capability constraints and
/// host patterns let a renice through, but that requires confirmation,
/// refuses the renice; with no confirmation required it lets it through.
pub proof fn law_renice_needs_confirmation(
    role: Role,
    hostname: Seq<char>,
    k: SystemActionPolicy,
    pid: u32,
    nice: i32,
)
    requires
        k.action@ == action_name(Command::ReniceProcess { pid, nice }) || k.action@ == "*"@,
        k.constraints.allowed_roles@.len() == 0 || role_listed(k.constraints.allowed_roles@, role),
        k.constraints.require_capability matches Some(cap) ==> eq_ignore_case(
            cap@,
            permission_of(Command::ReniceProcess { pid, nice }).name(),
        ),
        forall|i: int|
            0 <= i < k.constraints.deny_on_hosts@.len() ==> !spec_host_pattern_matches(
                hostname,
                #[trigger] k.constraints.deny_on_hosts@[i]@,
            ),
    ensures
        spec_evrus_check(Command::ReniceProcess { pid, nice }, role, hostname, k) == if k.constraints.require_confirmation {
            Err::<(), Seq<char>>("policy denied: EVRUS requires explicit confirmation for renice"@)
        } else {
            Ok(())
        },
{
    lemma_no_deny_match(hostname, k.constraints.deny_on_hosts@, 0);
}

/// An action that the role permits, under no EVRUS policy or one for
/// another action, is allowed with the policy hash unless it is a kill
/// within the cooldown of the last one.
pub proof fn law_unrestricted_actions_are_allowed(
    auth: AuthContext,
    hostname: Seq<char>,
    evrus_policy: Option<SystemActionPolicy>,
    policy_hash: Option<Seq<char>>,
    cooldown_ms: u64,
    c: Command,
    since_kill_ms: Option<u128>,
)
    requires
        spec_allows(auth, permission_of(c)),
        evrus_policy matches Some(k) ==> k.action@ != action_name(c) && k.action@ != "*"@,
        c is KillProcess && since_kill_ms is Some ==> since_kill_ms->0 >= cooldown_ms,
    ensures
        spec_evaluate(auth, hostname, evrus_policy, policy_hash, cooldown_ms, c, since_kill_ms)
            == Ok::<Option<Seq<char>>, Seq<char>>(policy_hash),
{
}

proof fn lemma_no_deny_match(hostname: Seq<char>, pats: Seq<String>, from: int)
    requires
        0 <= from,
        forall|i: int| 0 <= i < pats.len() ==> !spec_host_pattern_matches(hostname, #[trigger] pats[i]@),
    ensures
        first_deny_match(hostname, pats, from) is None,
    decreases pats.len() - from,
{
    if from < pats.len() {
        assert(!spec_host_pattern_matches(hostname, pats[from]@));
        lemma_no_deny_match(hostname, pats, from + 1);
    }
}

proof fn lemma_first_deny_match_found(hostname: Seq<char>, pats: Seq<String>, from: int, i: int)
    requires
        0 <= from <= i < pats.len(),
        spec_host_pattern_matches(hostname, pats[i]@),
    ensures
        first_deny_match(hostname, pats, from) is Some,
    decreases i - from,
{
    if !spec_host_pattern_matches(hostname, pats[from]@) {
        lemma_first_deny_match_found(hostname, pats, from + 1, i);
    }
}

} // verus!
