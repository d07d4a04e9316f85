//! The command palette's decisions, one event at a time: which commands are
//! answered on the console, that a kill or renice passes authentication
//! and then the policy (each refusal audited), that a kill then needs the
//! typed phrase and passes both checks again, and which lines enter the
//! history. The caller performs each action and hands back the answer.
use vstd::prelude::*;

use crate::actions::DenialSource;
use crate::command::{Command, CommandAction};
use crate::policy::PolicyDecision;
use crate::text::{decimal, str_eq, trim, trim_str, u64_to_decimal};
use crate::workbench::{kill_phrase, kill_phrase_text};

verus! {

broadcast use vstd::string::group_string_axioms;

/// Where the palette is in handling a command.
pub enum PaletteStage {
    /// Waiting for a line.
    Idle,
    /// Waiting for the console's own answer to a read-only command.
    ReadOnly { line: String, action: CommandAction },
    /// Waiting for the authentication's answer; `confirmed` once the
    /// operator typed a kill's phrase.
    Auth { line: String, action: CommandAction, confirmed: bool },
    /// Waiting for the policy's answer.
    Policy { line: String, action: CommandAction, confirmed: bool },
}

/// The palette: its stage, and the kill that waits for its phrase.
pub struct PaletteState {
    pub stage: PaletteStage,
    pub pending_kill: Option<u32>,
}

/// What the palette learns.
pub enum PaletteEvent {
    /// The operator entered `text`, which parsed as `parsed`.
    Line { text: String, parsed: Result<CommandAction, String> },
    /// The console's own answer to a read-only command; none when it has
    /// no data for it yet.
    ReadOnlyAnswer(Option<String>),
    /// Authentication's answer.
    AuthAnswer(Result<(), String>),
    /// The policy's answer.
    PolicyAnswer(Result<PolicyDecision, String>),
    /// The operator typed a confirmation.
    Confirmation(String),
    /// The operator cancelled the pending kill.
    Cancel,
}

/// What the palette asks the caller to do.
pub enum PaletteAction {
    /// Nothing.
    Nothing,
    /// Show `text`; add `record` to the history when there is one.
    Reply { text: String, record: Option<String> },
    /// Answer the read-only command on the console.
    ReadOnly(CommandAction),
    /// Ask authentication about the command.
    CheckAuth(CommandAction),
    /// Ask the policy about the command.
    CheckPolicy(CommandAction),
    /// Audit the refusal of the command by `source` and show `reason`.
    AuditDenial { action: CommandAction, source: DenialSource, reason: String },
    /// Ask the operator to type `phrase` to confirm the kill of `pid`.
    AskConfirmation { pid: u32, phrase: String },
    /// Carry the command out under the policy's hash, record it in the
    /// policy, and add `record` to the history.
    Execute { action: CommandAction, policy_hash: Option<String>, record: String },
}

// ---------------------------------------------------------------------------
// The model
// ---------------------------------------------------------------------------

pub enum StageModel {
    Idle,
    ReadOnly { line: Seq<char>, action: Command },
    Auth { line: Seq<char>, action: Command, confirmed: bool },
    Policy { line: Seq<char>, action: Command, confirmed: bool },
}

pub struct PaletteModel {
    pub stage: StageModel,
    pub pending_kill: Option<u32>,
}

pub enum EventModel {
    Line { text: Seq<char>, parsed: Result<Command, Seq<char>> },
    ReadOnlyAnswer(Option<Seq<char>>),
    AuthAnswer(Result<(), Seq<char>>),
    PolicyAnswer(Result<Option<Seq<char>>, Seq<char>>),
    Confirmation(Seq<char>),
    Cancel,
}

pub enum ActionModel {
    Nothing,
    Reply { text: Seq<char>, record: Option<Seq<char>> },
    ReadOnly(Command),
    CheckAuth(Command),
    CheckPolicy(Command),
    AuditDenial { action: Command, source: DenialSource, reason: Seq<char> },
    AskConfirmation { pid: u32, phrase: Seq<char> },
    Execute { action: Command, policy_hash: Option<Seq<char>>, record: Seq<char> },
}

pub open spec fn opt_seq(o: Option<String>) -> Option<Seq<char>> {
    match o {
        Some(s) => Some(s@),
        None => None,
    }
}

impl View for PaletteStage {
    type V = StageModel;

    open spec fn view(&self) -> StageModel {
        match self {
            PaletteStage::Idle => StageModel::Idle,
            PaletteStage::ReadOnly { line, action } => StageModel::ReadOnly {
                line: line@,
                action: action@,
            },
            PaletteStage::Auth { line, action, confirmed } => StageModel::Auth {
                line: line@,
                action: action@,
                confirmed: *confirmed,
            },
            PaletteStage::Policy { line, action, confirmed } => StageModel::Policy {
                line: line@,
                action: action@,
                confirmed: *confirmed,
            },
        }
    }
}

impl View for PaletteState {
    type V = PaletteModel;

    open spec fn view(&self) -> PaletteModel {
        PaletteModel { stage: self.stage@, pending_kill: self.pending_kill }
    }
}

impl View for PaletteEvent {
    type V = EventModel;

    open spec fn view(&self) -> EventModel {
        match self {
            PaletteEvent::Line { text, parsed } => EventModel::Line {
                text: text@,
                parsed: match parsed {
                    Ok(a) => Ok(a@),
                    Err(e) => Err(e@),
                },
            },
            PaletteEvent::ReadOnlyAnswer(o) => EventModel::ReadOnlyAnswer(opt_seq(*o)),
            PaletteEvent::AuthAnswer(r) => EventModel::AuthAnswer(
                match r {
                    Ok(()) => Ok(()),
                    Err(e) => Err(e@),
                },
            ),
            PaletteEvent::PolicyAnswer(r) => EventModel::PolicyAnswer(
                match r {
                    Ok(d) => Ok(opt_seq(d.policy_hash)),
                    Err(e) => Err(e@),
                },
            ),
            PaletteEvent::Confirmation(t) => EventModel::Confirmation(t@),
            PaletteEvent::Cancel => EventModel::Cancel,
        }
    }
}

impl View for PaletteAction {
    type V = ActionModel;

    open spec fn view(&self) -> ActionModel {
        match self {
            PaletteAction::Nothing => ActionModel::Nothing,
            PaletteAction::Reply { text, record } => ActionModel::Reply {
                text: text@,
                record: opt_seq(*record),
            },
            PaletteAction::ReadOnly(a) => ActionModel::ReadOnly(a@),
            PaletteAction::CheckAuth(a) => ActionModel::CheckAuth(a@),
            PaletteAction::CheckPolicy(a) => ActionModel::CheckPolicy(a@),
            PaletteAction::AuditDenial { action, source, reason } => ActionModel::AuditDenial {
                action: action@,
                source: *source,
                reason: reason@,
            },
            PaletteAction::AskConfirmation { pid, phrase } => ActionModel::AskConfirmation {
                pid: *pid,
                phrase: phrase@,
            },
            PaletteAction::Execute { action, policy_hash, record } => ActionModel::Execute {
                action: action@,
                policy_hash: opt_seq(*policy_hash),
                record: record@,
            },
        }
    }
}

/// Kill and renice change the system; every other command only reads.
pub open spec fn is_destructive(c: Command) -> bool {
    c is KillProcess || c is ReniceProcess
}

/// The line a confirmed kill enters the history as: `kill <pid>`.
pub open spec fn kill_line(pid: u32) -> Seq<char> {
    "kill "@ + decimal(pid as nat)
}

/// One step of the palette.
///
/// - A line that does not parse is answered `Invalid: <error>`. A
///   read-only command is answered on the console, entering the history;
///   when the console has no data yet, or for kill and renice, the
///   command goes to authentication.
/// - A refusal by authentication or by the policy is audited and shown;
///   an accepted command goes from authentication to the policy.
/// - A kill that the policy allows waits for its phrase; any other
///   command that the policy allows is carried out and enters the history.
/// - The typed phrase of the pending kill sends it through authentication
///   and the policy again, after which it is carried out and enters the
///   history as `kill <pid>`; a wrong phrase is answered
///   `Confirmation mismatch.` and the kill keeps waiting. Cancelling drops
///   the pending kill with `Action canceled.`.
/// - An answer that the palette is not waiting for changes nothing.
pub open spec fn spec_palette_step(s: PaletteModel, e: EventModel) -> (PaletteModel, ActionModel) {
    let idle = PaletteModel { stage: StageModel::Idle, pending_kill: s.pending_kill };
    match e {
        EventModel::Line { text, parsed } => match parsed {
            Err(err) => (idle, ActionModel::Reply { text: "Invalid: "@ + err, record: None }),
            Ok(a) => if is_destructive(a) {
                (
                    PaletteModel {
                        stage: StageModel::Auth { line: trim(text), action: a, confirmed: false },
                        pending_kill: s.pending_kill,
                    },
                    ActionModel::CheckAuth(a),
                )
            } else {
                (
                    PaletteModel {
                        stage: StageModel::ReadOnly { line: trim(text), action: a },
                        pending_kill: s.pending_kill,
                    },
                    ActionModel::ReadOnly(a),
                )
            },
        },
        EventModel::ReadOnlyAnswer(o) => match s.stage {
            StageModel::ReadOnly { line, action } => match o {
                Some(t) => (idle, ActionModel::Reply { text: t, record: Some(line) }),
                None => (
                    PaletteModel {
                        stage: StageModel::Auth { line, action, confirmed: false },
                        pending_kill: s.pending_kill,
                    },
                    ActionModel::CheckAuth(action),
                ),
            },
            _ => (s, ActionModel::Nothing),
        },
        EventModel::AuthAnswer(r) => match s.stage {
            StageModel::Auth { line, action, confirmed } => match r {
                Err(reason) => (
                    idle,
                    ActionModel::AuditDenial { action, source: DenialSource::Auth, reason },
                ),
                Ok(()) => (
                    PaletteModel {
                        stage: StageModel::Policy { line, action, confirmed },
                        pending_kill: s.pending_kill,
                    },
                    ActionModel::CheckPolicy(action),
                ),
            },
            _ => (s, ActionModel::Nothing),
        },
        EventModel::PolicyAnswer(r) => match s.stage {
            StageModel::Policy { line, action, confirmed } => match r {
                Err(reason) => (
                    idle,
                    ActionModel::AuditDenial { action, source: DenialSource::Policy, reason },
                ),
                Ok(hash) => match action {
                    Command::KillProcess { pid } => if confirmed {
                        (
                            idle,
                            ActionModel::Execute {
                                action,
                                policy_hash: hash,
                                record: kill_line(pid),
                            },
                        )
                    } else {
                        (
                            PaletteModel { stage: StageModel::Idle, pending_kill: Some(pid) },
                            ActionModel::AskConfirmation { pid, phrase: kill_phrase_text(pid) },
                        )
                    },
                    _ => (idle, ActionModel::Execute { action, policy_hash: hash, record: line }),
                },
            },
            _ => (s, ActionModel::Nothing),
        },
        EventModel::Confirmation(t) => match s.pending_kill {
            Some(pid) => if trim(t) == kill_phrase_text(pid) {
                (
                    PaletteModel {
                        stage: StageModel::Auth {
                            line: kill_line(pid),
                            action: Command::KillProcess { pid },
                            confirmed: true,
                        },
                        pending_kill: None,
                    },
                    ActionModel::CheckAuth(Command::KillProcess { pid }),
                )
            } else {
                (s, ActionModel::Reply { text: "Confirmation mismatch."@, record: None })
            },
            None => (s, ActionModel::Nothing),
        },
        EventModel::Cancel => match s.pending_kill {
            Some(_) => (
                PaletteModel { stage: s.stage, pending_kill: None },
                ActionModel::Reply { text: "Action canceled."@, record: None },
            ),
            None => (s, ActionModel::Nothing),
        },
    }
}

// ---------------------------------------------------------------------------
// The step
// ---------------------------------------------------------------------------

fn copy_opt_string(o: &Option<String>) -> (r: Option<String>)
    ensures
        opt_seq(r) == opt_seq(*o),
{
    match o {
        Some(s) => Some(s.clone()),
        None => None,
    }
}

/// A copy of a command.
pub fn copy_action(a: &CommandAction) -> (r: CommandAction)
    ensures
        r@ == a@,
{
    match a {
        CommandAction::ShowCpu => CommandAction::ShowCpu,
        CommandAction::ShowMemory => CommandAction::ShowMemory,
        CommandAction::ShowDisk => CommandAction::ShowDisk,
        CommandAction::ShowNetwork => CommandAction::ShowNetwork,
        CommandAction::ShowProcesses { sort, limit } => CommandAction::ShowProcesses {
            sort: copy_opt_string(sort),
            limit: *limit,
        },
        CommandAction::ShowAlerts => CommandAction::ShowAlerts,
        CommandAction::ShowConfig => CommandAction::ShowConfig,
        CommandAction::ShowConnectors => CommandAction::ShowConnectors,
        CommandAction::ShowAudit { last } => CommandAction::ShowAudit { last: *last },
        CommandAction::ShowStorage => CommandAction::ShowStorage,
        CommandAction::Help { topic } => CommandAction::Help { topic: copy_opt_string(topic) },
        CommandAction::KillProcess { pid } => CommandAction::KillProcess { pid: *pid },
        CommandAction::ReniceProcess { pid, nice } => CommandAction::ReniceProcess {
            pid: *pid,
            nice: *nice,
        },
    }
}

fn copy_stage(s: &PaletteStage) -> (r: PaletteStage)
    ensures
        r@ == s@,
{
    match s {
        PaletteStage::Idle => PaletteStage::Idle,
        PaletteStage::ReadOnly { line, action } => PaletteStage::ReadOnly {
            line: line.clone(),
            action: copy_action(action),
        },
        PaletteStage::Auth { line, action, confirmed } => PaletteStage::Auth {
            line: line.clone(),
            action: copy_action(action),
            confirmed: *confirmed,
        },
        PaletteStage::Policy { line, action, confirmed } => PaletteStage::Policy {
            line: line.clone(),
            action: copy_action(action),
            confirmed: *confirmed,
        },
    }
}

fn unchanged(s: &PaletteState) -> (r: PaletteState)
    ensures
        r@ == s@,
{
    PaletteState { stage: copy_stage(&s.stage), pending_kill: s.pending_kill }
}

fn kill_line_text(pid: u32) -> (r: String)
    ensures
        r@ == kill_line(pid),
{
    let mut l = "kill ".to_owned();
    let d = u64_to_decimal(pid as u64);
    l.append(d.as_str());
    l
}

/// One step of the palette: the next state and what to do.
pub fn palette_step(s: &PaletteState, e: PaletteEvent) -> (r: (PaletteState, PaletteAction))
    ensures
        (r.0@, r.1@) == spec_palette_step(s@, e@),
{
    let idle = PaletteState { stage: PaletteStage::Idle, pending_kill: s.pending_kill };
    match e {
        PaletteEvent::Line { text, parsed } => match parsed {
            Err(err) => {
                let mut t = "Invalid: ".to_owned();
                t.append(err.as_str());
                (idle, PaletteAction::Reply { text: t, record: None })
            },
            Ok(a) => {
                let line = trim_str(text.as_str()).to_owned();
                let destructive = match &a {
                    CommandAction::KillProcess { .. } => true,
                    CommandAction::ReniceProcess { .. } => true,
                    _ => false,
                };
                let b = copy_action(&a);
                if destructive {
                    (
                        PaletteState {
                            stage: PaletteStage::Auth { line, action: a, confirmed: false },
                            pending_kill: s.pending_kill,
                        },
                        PaletteAction::CheckAuth(b),
                    )
                } else {
                    (
                        PaletteState {
                            stage: PaletteStage::ReadOnly { line, action: a },
                            pending_kill: s.pending_kill,
                        },
                        PaletteAction::ReadOnly(b),
                    )
                }
            },
        },
        PaletteEvent::ReadOnlyAnswer(o) => match &s.stage {
            PaletteStage::ReadOnly { line, action } => match o {
                Some(t) => (idle, PaletteAction::Reply { text: t, record: Some(line.clone()) }),
                None => (
                    PaletteState {
                        stage: PaletteStage::Auth {
                            line: line.clone(),
                            action: copy_action(action),
                            confirmed: false,
                        },
                        pending_kill: s.pending_kill,
                    },
                    PaletteAction::CheckAuth(copy_action(action)),
                ),
            },
            _ => (unchanged(s), PaletteAction::Nothing),
        },
        PaletteEvent::AuthAnswer(r) => match &s.stage {
            PaletteStage::Auth { line, action, confirmed } => match r {
                Err(reason) => (
                    idle,
                    PaletteAction::AuditDenial {
                        action: copy_action(action),
                        source: DenialSource::Auth,
                        reason,
                    },
                ),
                Ok(()) => (
                    PaletteState {
                        stage: PaletteStage::Policy {
                            line: line.clone(),
                            action: copy_action(action),
                            confirmed: *confirmed,
                        },
                        pending_kill: s.pending_kill,
                    },
                    PaletteAction::CheckPolicy(copy_action(action)),
                ),
            },
            _ => (unchanged(s), PaletteAction::Nothing),
        },
        PaletteEvent::PolicyAnswer(r) => match &s.stage {
            PaletteStage::Policy { line, action, confirmed } => match r {
                Err(reason) => (
                    idle,
                    PaletteAction::AuditDenial {
                        action: copy_action(action),
                        source: DenialSource::Policy,
                        reason,
                    },
                ),
                Ok(d) => match action {
                    CommandAction::KillProcess { pid } => if *confirmed {
                        (
                            idle,
                            PaletteAction::Execute {
                                action: copy_action(action),
                                policy_hash: d.policy_hash,
                                record: kill_line_text(*pid),
                            },
                        )
                    } else {
                        (
                            PaletteState { stage: PaletteStage::Idle, pending_kill: Some(*pid) },
                            PaletteAction::AskConfirmation { pid: *pid, phrase: kill_phrase(*pid) },
                        )
                    },
                    _ => (
                        idle,
                        PaletteAction::Execute {
                            action: copy_action(action),
                            policy_hash: d.policy_hash,
                            record: line.clone(),
                        },
                    ),
                },
            },
            _ => (unchanged(s), PaletteAction::Nothing),
        },
        PaletteEvent::Confirmation(t) => match s.pending_kill {
            Some(pid) => {
                let phrase = kill_phrase(pid);
                if str_eq(trim_str(t.as_str()), phrase.as_str()) {
                    (
                        PaletteState {
                            stage: PaletteStage::Auth {
                                line: kill_line_text(pid),
                                action: CommandAction::KillProcess { pid },
                                confirmed: true,
                            },
                            pending_kill: None,
                        },
                        PaletteAction::CheckAuth(CommandAction::KillProcess { pid }),
                    )
                } else {
                    (
                        unchanged(s),
                        PaletteAction::Reply {
                            text: "Confirmation mismatch.".to_owned(),
                            record: None,
                        },
                    )
                }
            },
            None => (unchanged(s), PaletteAction::Nothing),
        },
        PaletteEvent::Cancel => match s.pending_kill {
            Some(_) => (
                PaletteState { stage: copy_stage(&s.stage), pending_kill: None },
                PaletteAction::Reply { text: "Action canceled.".to_owned(), record: None },
            ),
            None => (unchanged(s), PaletteAction::Nothing),
        },
    }
}

/// The palette before any line.
pub fn palette_start() -> (r: PaletteState)
    ensures
        r@ == (PaletteModel { stage: StageModel::Idle, pending_kill: None }),
{
    PaletteState { stage: PaletteStage::Idle, pending_kill: None }
}

// ---------------------------------------------------------------------------
// Laws
// ---------------------------------------------------------------------------

/// A command is carried out only on the policy's `Ok`, while the palette
/// waits for the policy's answer about that very command; a kill only
/// once its phrase was typed.
pub proof fn law_execute_needs_the_policy(s: PaletteModel, e: EventModel)
    ensures
        spec_palette_step(s, e).1 matches ActionModel::Execute { action, .. } ==> {
            &&& e matches EventModel::PolicyAnswer(Ok(_))
            &&& s.stage matches StageModel::Policy { action: a, confirmed, .. }
            &&& a == action
            &&& (action is KillProcess ==> confirmed)
        },
{
}

/// The palette starts waiting for the policy only when authentication
/// answered `Ok` about the command it was waiting for, keeping whether
/// the command was confirmed.
pub proof fn law_policy_needs_authentication(s: PaletteModel, e: EventModel)
    ensures
        spec_palette_step(s, e).0.stage matches StageModel::Policy { action, confirmed, .. }
            ==> !(s.stage is Policy) ==> {
            &&& e matches EventModel::AuthAnswer(Ok(()))
            &&& s.stage matches StageModel::Auth { action: a, confirmed: c, .. }
            &&& a == action && c == confirmed
        },
        (spec_palette_step(s, e).0.stage is Policy && s.stage is Policy) ==> spec_palette_step(
            s,
            e,
        ).0.stage == s.stage,
{
}

/// A kill is confirmed only by typing the phrase of the kill that waits
/// for it, and the confirmation goes to authentication first.
pub proof fn law_confirmation_needs_the_phrase(s: PaletteModel, e: EventModel)
    ensures
        spec_palette_step(s, e).0.stage matches StageModel::Auth { action, confirmed, .. }
            ==> confirmed ==> !(s.stage matches StageModel::Auth { confirmed: true, .. }) ==> {
            &&& e matches EventModel::Confirmation(t)
            &&& s.pending_kill matches Some(pid)
            &&& trim(t) == kill_phrase_text(pid)
            &&& action == Command::KillProcess { pid }
            &&& spec_palette_step(s, e).1 == ActionModel::CheckAuth(action)
        },
{
}

/// A wrong phrase leaves the pending kill, and everything else, in place,
/// with the answer `Confirmation mismatch.`.
pub proof fn law_mismatch_keeps_the_kill_pending(s: PaletteModel, t: Seq<char>)
    requires
        s.pending_kill matches Some(pid) && trim(t) != kill_phrase_text(pid),
    ensures
        spec_palette_step(s, EventModel::Confirmation(t)) == (
            s,
            ActionModel::Reply { text: "Confirmation mismatch."@, record: None },
        ),
{
}

/// A refusal by either check is audited, and nothing is carried out.
pub proof fn law_refusals_are_audited(s: PaletteModel, reason: Seq<char>)
    ensures
        s.stage is Auth ==> spec_palette_step(s, EventModel::AuthAnswer(Err(reason))).1 matches ActionModel::AuditDenial {
            source: DenialSource::Auth,
            ..
        },
        s.stage is Policy ==> spec_palette_step(s, EventModel::PolicyAnswer(Err(reason))).1 matches ActionModel::AuditDenial {
            source: DenialSource::Policy,
            ..
        },
{
}

} // verus!
