//! Carrying out an accepted console command: what is audited, what is
//! handed to the privileged helper, and what the operator reads back.
use vstd::prelude::*;

use crate::audit::{opt_view, AuditEvent};
use crate::command::{Command, CommandAction};
use crate::helper::{HelperRequest, HelperResponse};
use crate::policy::{action_name, action_name_exec};
use crate::text::{decimal, u64_to_decimal};

verus! {

broadcast use vstd::string::group_string_axioms;

/// Which check refused a command.
#[derive(Debug, Clone, Copy, PartialEq, Eq, Structural)]
pub enum DenialSource {
    /// The operator's authentication.
    Auth,
    /// The execution policy.
    Policy,
}

impl DenialSource {
    pub open spec fn label(self) -> Seq<char> {
        match self {
            DenialSource::Auth => "auth_gate"@,
            DenialSource::Policy => "policy_gate"@,
        }
    }
}

/// What a command acts on: `pid:<pid>` for the process commands, the
/// system otherwise.
pub open spec fn action_target(c: Command) -> Seq<char> {
    match c {
        Command::KillProcess { pid } => "pid:"@ + decimal(pid as nat),
        Command::ReniceProcess { pid, .. } => "pid:"@ + decimal(pid as nat),
        _ => "system"@,
    }
}

fn action_target_exec(action: &CommandAction) -> (r: String)
    ensures
        r@ == action_target(action@),
{
    match action {
        CommandAction::KillProcess { pid } => {
            let mut s = "pid:".to_owned();
            let d = u64_to_decimal(*pid as u64);
            s.append(d.as_str());
            s
        },
        CommandAction::ReniceProcess { pid, .. } => {
            let mut s = "pid:".to_owned();
            let d = u64_to_decimal(*pid as u64);
            s.append(d.as_str());
            s
        },
        _ => "system".to_owned(),
    }
}

/// An audit record with no signature and no anchor.
pub open spec fn plain_event(
    e: AuditEvent,
    ts: u64,
    action: Seq<char>,
    target: Seq<char>,
    result: Seq<char>,
    actor: Seq<char>,
    policy_hash: Option<Seq<char>>,
) -> bool {
    &&& e.ts == ts
    &&& e.action@ == action
    &&& e.target@ == target
    &&& e.result@ == result
    &&& e.actor@ == actor
    &&& e.sig is None
    &&& opt_view(e.policy_hash) == policy_hash
    &&& e.anchor_txid is None
    &&& e.anchor_blockheight is None
    &&& e.anchor_merkle_root is None
}

/// The audit record of a refused command: its action and target, and
/// `denied: <check>: <reason>` as the result.
pub fn denial_event(
    action: &CommandAction,
    source: DenialSource,
    reason: &str,
    actor: &str,
    policy_hash: Option<String>,
    ts: u64,
) -> (r: AuditEvent)
    ensures
        plain_event(
            r,
            ts,
            action_name(action@),
            action_target(action@),
            "denied: "@ + source.label() + ": "@ + reason@,
            actor@,
            opt_view(policy_hash),
        ),
{
    let mut result = "denied: ".to_owned();
    match source {
        DenialSource::Auth => result.append("auth_gate"),
        DenialSource::Policy => result.append("policy_gate"),
    }
    result.append(": ");
    result.append(reason);
    AuditEvent {
        ts,
        action: action_name_exec(action).to_owned(),
        target: action_target_exec(action),
        result,
        actor: actor.to_owned(),
        sig: None,
        policy_hash,
        anchor_txid: None,
        anchor_blockheight: None,
        anchor_merkle_root: None,
    }
}

/// The next step of carrying out an accepted command.
#[derive(Debug)]
pub enum ActionStep {
    /// Append the record to the trail and show the reply.
    Audited { event: AuditEvent, reply: String },
    /// Send the request to the helper and show its answer.
    Helper(HelperRequest),
    /// Show the reply; the command was answered on the console.
    Reply(String),
}

/// How an accepted command is carried out: reading the processor is
/// audited as a local read; killing and renicing go to the helper with
/// the process (and niceness); every other command was already answered
/// on the console.
pub open spec fn spec_plan(c: Command, actor: Seq<char>, policy_hash: Option<Seq<char>>, ts: u64, r: ActionStep) -> bool {
    match c {
        Command::ShowCpu => r matches ActionStep::Audited { event, reply } && plain_event(
            event,
            ts,
            "show_cpu"@,
            "system"@,
            "ok: local read action"@,
            actor,
            policy_hash,
        ) && reply@ == "Accepted: ShowCpu (local read-only action)"@,
        Command::KillProcess { pid } => r matches ActionStep::Helper(req) && req.action@
            == "kill_process"@ && req.pid == pid && req.nice is None,
        Command::ReniceProcess { pid, nice } => r matches ActionStep::Helper(req) && req.action@
            == "renice_process"@ && req.pid == pid && req.nice == Some(nice),
        _ => r matches ActionStep::Reply(t) && t@ == "Read-only command handled inline."@,
    }
}

pub fn plan_action(action: CommandAction, actor: &str, policy_hash: Option<String>, ts: u64) -> (r:
    ActionStep)
    ensures
        spec_plan(action@, actor@, opt_view(policy_hash), ts, r),
{
    match action {
        CommandAction::ShowCpu => ActionStep::Audited {
            event: AuditEvent {
                ts,
                action: "show_cpu".to_owned(),
                target: "system".to_owned(),
                result: "ok: local read action".to_owned(),
                actor: actor.to_owned(),
                sig: None,
                policy_hash,
                anchor_txid: None,
                anchor_blockheight: None,
                anchor_merkle_root: None,
            },
            reply: "Accepted: ShowCpu (local read-only action)".to_owned(),
        },
        CommandAction::KillProcess { pid } => ActionStep::Helper(
            HelperRequest { action: "kill_process".to_owned(), pid, nice: None },
        ),
        CommandAction::ReniceProcess { pid, nice } => ActionStep::Helper(
            HelperRequest { action: "renice_process".to_owned(), pid, nice: Some(nice) },
        ),
        _ => ActionStep::Reply("Read-only command handled inline.".to_owned()),
    }
}

/// What the operator reads of the helper's answer: `OK: <message>` or
/// `DENIED: <message>`, or `Helper error: <error>` when the helper could
/// not be asked.
pub open spec fn spec_helper_reply(reply: Result<(bool, Seq<char>), Seq<char>>) -> Seq<char> {
    match reply {
        Ok((ok, message)) => (if ok {
            "OK"@
        } else {
            "DENIED"@
        }) + ": "@ + message,
        Err(e) => "Helper error: "@ + e,
    }
}

pub open spec fn response_view(r: Result<HelperResponse, String>) -> Result<(bool, Seq<char>), Seq<char>> {
    match r {
        Ok(resp) => Ok((resp.ok, resp.message@)),
        Err(e) => Err(e@),
    }
}

pub fn helper_reply_text(reply: &Result<HelperResponse, String>) -> (r: String)
    ensures
        r@ == spec_helper_reply(response_view(*reply)),
{
    match reply {
        Ok(resp) => {
            let mut s = if resp.ok {
                "OK".to_owned()
            } else {
                "DENIED".to_owned()
            };
            s.append(": ");
            s.append(resp.message.as_str());
            s
        },
        Err(e) => {
            let mut s = "Helper error: ".to_owned();
            s.append(e.as_str());
            s
        },
    }
}

} // verus!
