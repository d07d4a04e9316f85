//! The allowlisted command palette: parsing operator input into actions.
use vstd::prelude::*;

use crate::text::{
    all_digits, ascii_lower, chars_of, digits_value, is_ws, lemma_trim_bounds, lower_span,
    parse_i32, parse_i32_span, parse_unsigned, parse_unsigned_span, span_eq_lit, spans_cut,
    split_ws, split_ws_spans, trim, trim_end, trim_start, trim_str, vec_eq_lit, skip_ws_from,
    back_ws_from, lower_str, trim_bounds, utf8_len, utf8_len_exceeds, lemma_parse_unsigned_range,
};

verus! {

broadcast use vstd::string::group_string_axioms;

/// An action that the command palette accepted.
#[derive(Debug, Clone)]
pub enum CommandAction {
    ShowCpu,
    ShowMemory,
    ShowDisk,
    ShowNetwork,
    ShowProcesses { sort: Option<String>, limit: Option<usize> },
    ShowAlerts,
    ShowConfig,
    ShowConnectors,
    ShowAudit { last: usize },
    ShowStorage,
    Help { topic: Option<String> },
    KillProcess { pid: u32 },
    ReniceProcess { pid: u32, nice: i32 },
}

/// The mathematical value of a [`CommandAction`]: strings as character sequences.
pub enum Command {
    ShowCpu,
    ShowMemory,
    ShowDisk,
    ShowNetwork,
    ShowProcesses { sort: Option<Seq<char>>, limit: Option<usize> },
    ShowAlerts,
    ShowConfig,
    ShowConnectors,
    ShowAudit { last: usize },
    ShowStorage,
    Help { topic: Option<Seq<char>> },
    KillProcess { pid: u32 },
    ReniceProcess { pid: u32, nice: i32 },
}

pub open spec fn opt_string_view(o: Option<String>) -> Option<Seq<char>> {
    match o {
        Some(s) => Some(s@),
        None => None,
    }
}

impl View for CommandAction {
    type V = Command;

    open spec fn view(&self) -> Command {
        match self {
            CommandAction::ShowCpu => Command::ShowCpu,
            CommandAction::ShowMemory => Command::ShowMemory,
            CommandAction::ShowDisk => Command::ShowDisk,
            CommandAction::ShowNetwork => Command::ShowNetwork,
            CommandAction::ShowProcesses { sort, limit } => Command::ShowProcesses {
                sort: opt_string_view(*sort),
                limit: *limit,
            },
            CommandAction::ShowAlerts => Command::ShowAlerts,
            CommandAction::ShowConfig => Command::ShowConfig,
            CommandAction::ShowConnectors => Command::ShowConnectors,
            CommandAction::ShowAudit { last } => Command::ShowAudit { last: *last },
            CommandAction::ShowStorage => Command::ShowStorage,
            CommandAction::Help { topic } => Command::Help { topic: opt_string_view(*topic) },
            CommandAction::KillProcess { pid } => Command::KillProcess { pid: *pid },
            CommandAction::ReniceProcess { pid, nice } => Command::ReniceProcess {
                pid: *pid,
                nice: *nice,
            },
        }
    }
}

/// The characters that would let a command reach a shell: `| ; & > <`.
pub open spec fn is_shell_operator(c: char) -> bool {
    c == '|' || c == ';' || c == '&' || c == '>' || c == '<'
}

pub open spec fn has_shell_operator(s: Seq<char>) -> bool {
    exists|i: int| 0 <= i < s.len() && is_shell_operator(#[trigger] s[i])
}

/// The sort keys of `show processes --sort`.
pub open spec fn is_valid_sort(s: Seq<char>) -> bool {
    s == "cpu"@ || s == "rss"@ || s == "pid"@ || s == "threads"@
}

/// The flags of `show processes`, read from `rest[i]` on.
pub open spec fn parse_process_flags(
    rest: Seq<Seq<char>>,
    i: int,
    sort: Option<Seq<char>>,
    limit: Option<usize>,
) -> Result<Command, Seq<char>>
    decreases rest.len() - i,
{
    if i < 0 || i >= rest.len() {
        Ok(Command::ShowProcesses { sort, limit })
    } else if rest[i] == "--sort"@ && i + 1 < rest.len() {
        let v = ascii_lower(rest[i + 1]);
        if !is_valid_sort(v) {
            Err("invalid --sort value (expected cpu|rss|pid|threads)"@)
        } else {
            parse_process_flags(rest, i + 2, Some(v), limit)
        }
    } else if rest[i] == "--limit"@ && i + 1 < rest.len() {
        match parse_unsigned(rest[i + 1], usize::MAX as int) {
            None => Err("invalid --limit value"@),
            Some(n) => if n == 0 {
                Err("--limit must be >= 1"@)
            } else {
                parse_process_flags(rest, i + 2, sort, Some(n as usize))
            },
        }
    } else {
        Err("unknown flag: "@ + rest[i])
    }
}

pub open spec fn is_show(t: Seq<Seq<char>>, what: Seq<char>) -> bool {
    t.len() == 2 && t[0] == "show"@ && t[1] == what
}

pub open spec fn unknown_command_message() -> Seq<char> {
    "unknown command. Type 'help' for available commands."@
}

/// `show audit --last N`.
pub open spec fn parse_audit_last(n: Seq<char>) -> Result<Command, Seq<char>> {
    match parse_unsigned(n, usize::MAX as int) {
        None => Err("invalid --last value"@),
        Some(v) => if v == 0 {
            Err("--last must be >= 1"@)
        } else {
            Ok(Command::ShowAudit { last: if v < 200 { v as usize } else { 200 } })
        },
    }
}

/// `kill PID`.
pub open spec fn parse_kill(pid: Seq<char>) -> Result<Command, Seq<char>> {
    match parse_unsigned(pid, u32::MAX as int) {
        None => Err("invalid pid"@),
        Some(p) => if p == 0 {
            Err("pid must be > 0"@)
        } else {
            Ok(Command::KillProcess { pid: p as u32 })
        },
    }
}

/// `renice NICE PID`.
pub open spec fn parse_renice(nice: Seq<char>, pid: Seq<char>) -> Result<Command, Seq<char>> {
    match parse_i32(nice) {
        None => Err("invalid nice value"@),
        Some(n) => match parse_unsigned(pid, u32::MAX as int) {
            None => Err("invalid pid"@),
            Some(p) => if p == 0 {
                Err("pid must be > 0"@)
            } else if !(-20 <= n <= 19) {
                Err("nice must be between -20 and 19"@)
            } else {
                Ok(Command::ReniceProcess { pid: p as u32, nice: n as i32 })
            },
        },
    }
}

/// The meaning of a list of command tokens.
pub open spec fn parse_tokens(t: Seq<Seq<char>>) -> Result<Command, Seq<char>> {
    if is_show(t, "cpu"@) {
        Ok(Command::ShowCpu)
    } else if is_show(t, "memory"@) || is_show(t, "mem"@) {
        Ok(Command::ShowMemory)
    } else if is_show(t, "disk"@) || is_show(t, "disks"@) {
        Ok(Command::ShowDisk)
    } else if is_show(t, "network"@) || is_show(t, "net"@) {
        Ok(Command::ShowNetwork)
    } else if t.len() >= 2 && t[0] == "show"@ && (t[1] == "processes"@ || t[1] == "procs"@) {
        parse_process_flags(t.skip(2), 0, None, None)
    } else if is_show(t, "alerts"@) {
        Ok(Command::ShowAlerts)
    } else if is_show(t, "config"@) {
        Ok(Command::ShowConfig)
    } else if is_show(t, "connectors"@) {
        Ok(Command::ShowConnectors)
    } else if is_show(t, "audit"@) {
        Ok(Command::ShowAudit { last: 10 })
    } else if t.len() == 4 && t[0] == "show"@ && t[1] == "audit"@ && t[2] == "--last"@ {
        parse_audit_last(t[3])
    } else if is_show(t, "storage"@) {
        Ok(Command::ShowStorage)
    } else if t.len() == 1 && t[0] == "help"@ {
        Ok(Command::Help { topic: None })
    } else if t.len() == 2 && t[0] == "help"@ {
        Ok(Command::Help { topic: Some(t[1]) })
    } else if t.len() == 2 && t[0] == "kill"@ {
        parse_kill(t[1])
    } else if t.len() == 3 && t[0] == "renice"@ {
        parse_renice(t[1], t[2])
    } else {
        Err(unknown_command_message())
    }
}

/// What `parse_command` answers to `input`: the input is trimmed; an empty
/// one, one longer than 256 bytes in UTF-8, and one with a shell operator
/// are refused; the rest is split at whitespace and matched against the
/// command table.
pub open spec fn spec_parse_command(input: Seq<char>) -> Result<Command, Seq<char>> {
    let raw = trim(input);
    if raw.len() == 0 {
        Err("empty command"@)
    } else if utf8_len(raw) > 256 {
        Err("command too long"@)
    } else if has_shell_operator(raw) {
        Err("shell operators are not allowed"@)
    } else {
        parse_tokens(split_ws(raw))
    }
}

pub open spec fn result_view(r: Result<CommandAction, String>) -> Result<Command, Seq<char>> {
    match r {
        Ok(a) => Ok(a@),
        Err(e) => Err(e@),
    }
}

/// Whether `s` is one of `cpu`, `rss`, `pid`, `threads`.
fn is_valid_process_sort(s: &Vec<char>) -> (r: bool)
    ensures
        r == is_valid_sort(s@),
{
    vec_eq_lit(s, "cpu") || vec_eq_lit(s, "rss") || vec_eq_lit(s, "pid") || vec_eq_lit(
        s,
        "threads",
    )
}

fn has_shell_op(v: &Vec<char>) -> (r: bool)
    ensures
        r == has_shell_operator(v@),
{
    let mut i: usize = 0;
    while i < v.len()
        invariant
            i <= v@.len(),
            forall|k: int| 0 <= k < i ==> !is_shell_operator(#[trigger] v@[k]),
        decreases v@.len() - i,
    {
        let c = v[i];
        if c == '|' || c == ';' || c == '&' || c == '>' || c == '<' {
            assert(is_shell_operator(v@[i as int]));
            return true;
        }
        i = i + 1;
    }
    false
}

/// Token `k` of `raw`, as cut by `spans`, equals `lit`.
fn tok_is(raw: &Vec<char>, spans: &Vec<(usize, usize)>, k: usize, lit: &str) -> (r: bool)
    requires
        spans_cut(raw@, spans@, split_ws(raw@)),
        k < spans@.len(),
    ensures
        r == (split_ws(raw@)[k as int] == lit@),
{
    let (a, b) = spans[k];
    span_eq_lit(raw, a, b, lit)
}

/// The text of token `k` as a new string.
fn tok_string(raw_str: &str, raw: &Vec<char>, spans: &Vec<(usize, usize)>, k: usize) -> (r: String)
    requires
        raw@ == raw_str@,
        spans_cut(raw@, spans@, split_ws(raw@)),
        k < spans@.len(),
    ensures
        r@ == split_ws(raw@)[k as int],
{
    let (a, b) = spans[k];
    raw_str.substring_char(a, b).to_owned()
}

fn err(msg: &str) -> (r: Result<CommandAction, String>)
    ensures
        result_view(r) == Err::<Command, Seq<char>>(msg@),
{
    Err(msg.to_owned())
}

/// The flags of `show processes`, which start at token 2.
fn parse_process_flags_exec(raw_str: &str, raw: &Vec<char>, spans: &Vec<(usize, usize)>) -> (r:
    Result<CommandAction, String>)
    requires
        raw@ == raw_str@,
        spans_cut(raw@, spans@, split_ws(raw@)),
        spans@.len() >= 2,
    ensures
        result_view(r) == parse_process_flags(split_ws(raw@).skip(2), 0, None, None),
{
    let ghost toks = split_ws(raw@);
    let ghost rest = toks.skip(2);
    let n = spans.len();
    let mut sort: Option<String> = None;
    let mut limit: Option<usize> = None;
    let mut i: usize = 2;
    while i < n
        invariant
            raw@ == raw_str@,
            toks == split_ws(raw@),
            rest == toks.skip(2),
            spans_cut(raw@, spans@, toks),
            n == spans@.len(),
            2 <= i,
            parse_process_flags(rest, 0, None, None) == parse_process_flags(
                rest,
                i - 2,
                opt_string_view(sort),
                limit,
            ),
        decreases n - i,
    {
        let ghost j = i - 2;
        assert(rest[j] == toks[i as int]);
        if tok_is(raw, spans, i, "--sort") && i + 1 < n {
            assert(rest[j + 1] == toks[i + 1]);
            let (a, b) = spans[i + 1];
            let low = lower_span(raw, a, b);
            if !is_valid_process_sort(&low) {
                return err("invalid --sort value (expected cpu|rss|pid|threads)");
            }
            let s = if vec_eq_lit(&low, "cpu") {
                "cpu".to_owned()
            } else if vec_eq_lit(&low, "rss") {
                "rss".to_owned()
            } else if vec_eq_lit(&low, "pid") {
                "pid".to_owned()
            } else {
                "threads".to_owned()
            };
            sort = Some(s);
            i = i + 2;
        } else if tok_is(raw, spans, i, "--limit") && i + 1 < n {
            assert(rest[j + 1] == toks[i + 1]);
            let (a, b) = spans[i + 1];
            match parse_unsigned_span(raw, a, b, usize::MAX as u64) {
                None => {
                    return err("invalid --limit value");
                },
                Some(x) => {
                    if x == 0 {
                        return err("--limit must be >= 1");
                    }
                    limit = Some(x as usize);
                    i = i + 2;
                },
            }
        } else {
            let (a, b) = spans[i];
            let mut e = "unknown flag: ".to_owned();
            e.append(raw_str.substring_char(a, b));
            return Err(e);
        }
    }
    Ok(CommandAction::ShowProcesses { sort, limit })
}

fn parse_audit_last_exec(raw: &Vec<char>, a: usize, b: usize) -> (r: Result<CommandAction, String>)
    requires
        a <= b <= raw@.len(),
    ensures
        result_view(r) == parse_audit_last(raw@.subrange(a as int, b as int)),
{
    match parse_unsigned_span(raw, a, b, usize::MAX as u64) {
        None => err("invalid --last value"),
        Some(x) => {
            if x == 0 {
                err("--last must be >= 1")
            } else {
                let last: usize = if x < 200 {
                    x as usize
                } else {
                    200
                };
                Ok(CommandAction::ShowAudit { last })
            }
        },
    }
}

fn parse_kill_exec(raw: &Vec<char>, a: usize, b: usize) -> (r: Result<CommandAction, String>)
    requires
        a <= b <= raw@.len(),
    ensures
        result_view(r) == parse_kill(raw@.subrange(a as int, b as int)),
{
    match parse_unsigned_span(raw, a, b, u32::MAX as u64) {
        None => err("invalid pid"),
        Some(p) => {
            if p == 0 {
                err("pid must be > 0")
            } else {
                Ok(CommandAction::KillProcess { pid: p as u32 })
            }
        },
    }
}

fn parse_renice_exec(raw: &Vec<char>, na: usize, nb: usize, pa: usize, pb: usize) -> (r: Result<
    CommandAction,
    String,
>)
    requires
        na <= nb <= raw@.len(),
        pa <= pb <= raw@.len(),
    ensures
        result_view(r) == parse_renice(
            raw@.subrange(na as int, nb as int),
            raw@.subrange(pa as int, pb as int),
        ),
{
    match parse_i32_span(raw, na, nb) {
        None => err("invalid nice value"),
        Some(nice) => match parse_unsigned_span(raw, pa, pb, u32::MAX as u64) {
            None => err("invalid pid"),
            Some(p) => {
                if p == 0 {
                    err("pid must be > 0")
                } else if !(-20 <= nice && nice <= 19) {
                    err("nice must be between -20 and 19")
                } else {
                    Ok(CommandAction::ReniceProcess { pid: p as u32, nice })
                }
            },
        },
    }
}

/// `show X` for a command of exactly two tokens.
fn is_show_exec(raw: &Vec<char>, spans: &Vec<(usize, usize)>, what: &str) -> (r: bool)
    requires
        spans_cut(raw@, spans@, split_ws(raw@)),
    ensures
        r == is_show(split_ws(raw@), what@),
{
    spans.len() == 2 && tok_is(raw, spans, 0, "show") && tok_is(raw, spans, 1, what)
}

fn parse_tokens_exec(raw_str: &str, raw: &Vec<char>, spans: &Vec<(usize, usize)>) -> (r: Result<
    CommandAction,
    String,
>)
    requires
        raw@ == raw_str@,
        spans_cut(raw@, spans@, split_ws(raw@)),
    ensures
        result_view(r) == parse_tokens(split_ws(raw@)),
{
    let ghost t = split_ws(raw@);
    let n = spans.len();
    if is_show_exec(raw, spans, "cpu") {
        Ok(CommandAction::ShowCpu)
    } else if is_show_exec(raw, spans, "memory") || is_show_exec(raw, spans, "mem") {
        Ok(CommandAction::ShowMemory)
    } else if is_show_exec(raw, spans, "disk") || is_show_exec(raw, spans, "disks") {
        Ok(CommandAction::ShowDisk)
    } else if is_show_exec(raw, spans, "network") || is_show_exec(raw, spans, "net") {
        Ok(CommandAction::ShowNetwork)
    } else if n >= 2 && tok_is(raw, spans, 0, "show") && (tok_is(raw, spans, 1, "processes")
        || tok_is(raw, spans, 1, "procs")) {
        parse_process_flags_exec(raw_str, raw, spans)
    } else if is_show_exec(raw, spans, "alerts") {
        Ok(CommandAction::ShowAlerts)
    } else if is_show_exec(raw, spans, "config") {
        Ok(CommandAction::ShowConfig)
    } else if is_show_exec(raw, spans, "connectors") {
        Ok(CommandAction::ShowConnectors)
    } else if is_show_exec(raw, spans, "audit") {
        Ok(CommandAction::ShowAudit { last: 10 })
    } else if n == 4 && tok_is(raw, spans, 0, "show") && tok_is(raw, spans, 1, "audit") && tok_is(
        raw,
        spans,
        2,
        "--last",
    ) {
        let (a, b) = spans[3];
        parse_audit_last_exec(raw, a, b)
    } else if is_show_exec(raw, spans, "storage") {
        Ok(CommandAction::ShowStorage)
    } else if n == 1 && tok_is(raw, spans, 0, "help") {
        Ok(CommandAction::Help { topic: None })
    } else if n == 2 && tok_is(raw, spans, 0, "help") {
        let topic = tok_string(raw_str, raw, spans, 1);
        Ok(CommandAction::Help { topic: Some(topic) })
    } else if n == 2 && tok_is(raw, spans, 0, "kill") {
        let (a, b) = spans[1];
        parse_kill_exec(raw, a, b)
    } else if n == 3 && tok_is(raw, spans, 0, "renice") {
        let (na, nb) = spans[1];
        let (pa, pb) = spans[2];
        parse_renice_exec(raw, na, nb, pa, pb)
    } else {
        err("unknown command. Type 'help' for available commands.")
    }
}

/// Parses one line of the command palette.
///
/// The line is trimmed; it is refused when it is empty, longer than 256
/// bytes, or holds a shell operator (`| ; & > <`); otherwise its
/// whitespace-separated tokens must form one of the allowlisted commands.
pub fn parse_command(input: &str) -> (r: Result<CommandAction, String>)
    ensures
        result_view(r) == spec_parse_command(input@),
{
    let raw_str = trim_str(input);
    let raw = chars_of(raw_str);
    if raw.len() == 0 {
        return err("empty command");
    }
    if utf8_len_exceeds(&raw, 256) {
        return err("command too long");
    }
    if has_shell_op(&raw) {
        return err("shell operators are not allowed");
    }
    let spans = split_ws_spans(&raw);
    parse_tokens_exec(raw_str, &raw, &spans)
}

// ---------------------------------------------------------------------------
// Completion
// ---------------------------------------------------------------------------

/// The lines that the palette offers to complete, in order.
pub open spec fn completions() -> Seq<Seq<char>> {
    seq!["show cpu"@, "show memory"@, "show disk"@, "show network"@, "show processes"@, "show processes --sort cpu"@, "show processes --sort rss"@, "show alerts"@, "show config"@, "show connectors"@, "show audit"@, "show audit --last 50"@, "show storage"@, "help"@, "help commands"@, "help config"@, "help connectors"@, "help auth"@, "help alerts"@, "help audit"@, "help sse"@, "help profiles"@, "kill "@, "renice "@]
}

pub open spec fn str_views(v: Seq<&'static str>) -> Seq<Seq<char>> {
    v.map_values(|s: &'static str| s@)
}

/// The completion table.
pub fn command_completions() -> (r: Vec<&'static str>)
    ensures
        str_views(r@) == completions(),
{
    let mut v: Vec<&'static str> = Vec::new();
    v.push("show cpu");
    v.push("show memory");
    v.push("show disk");
    v.push("show network");
    v.push("show processes");
    v.push("show processes --sort cpu");
    v.push("show processes --sort rss");
    v.push("show alerts");
    v.push("show config");
    v.push("show connectors");
    v.push("show audit");
    v.push("show audit --last 50");
    v.push("show storage");
    v.push("help");
    v.push("help commands");
    v.push("help config");
    v.push("help connectors");
    v.push("help auth");
    v.push("help alerts");
    v.push("help audit");
    v.push("help sse");
    v.push("help profiles");
    v.push("kill ");
    v.push("renice ");
    assert(str_views(v@) =~= completions());
    v
}

/// `a` starts with `p`.
pub open spec fn starts_with(a: Seq<char>, p: Seq<char>) -> bool {
    p.len() <= a.len() && a.subrange(0, p.len() as int) == p
}

/// A completion fits what was typed, compared without ASCII case.
pub open spec fn completion_fits(low: Seq<char>, c: Seq<char>) -> bool {
    starts_with(ascii_lower(c), low)
}

/// The completions offered for the text typed so far: the leading
/// whitespace is ignored, and a completion fits when it starts with the
/// rest, compared without ASCII case; with nothing typed, all of them.
pub open spec fn spec_filtered_completions(typed: Seq<char>) -> Seq<Seq<char>> {
    let low = ascii_lower(typed.subrange(trim_start(typed), typed.len() as int));
    if low.len() == 0 {
        completions()
    } else {
        completions().filter(|c: Seq<char>| completion_fits(low, c))
    }
}

fn starts_with_exec(a: &Vec<char>, p: &Vec<char>) -> (r: bool)
    ensures
        r == starts_with(a@, p@),
{
    if p.len() > a.len() {
        return false;
    }
    let mut i: usize = 0;
    while i < p.len()
        invariant
            p@.len() <= a@.len(),
            i <= p@.len(),
            forall|k: int| 0 <= k < i ==> a@[k] == p@[k],
        decreases p@.len() - i,
    {
        if a[i] != p[i] {
            assert(a@.subrange(0, p@.len() as int)[i as int] != p@[i as int]);
            return false;
        }
        i = i + 1;
    }
    assert(a@.subrange(0, p@.len() as int) =~= p@);
    true
}

/// The completions that fit the typed text.
pub fn filtered_command_completions(typed: &str) -> (r: Vec<&'static str>)
    ensures
        str_views(r@) == spec_filtered_completions(typed@),
{
    let all = command_completions();
    let tv = chars_of(typed);
    let (start, _end) = trim_bounds(&tv);
    let low = lower_span(&tv, start, tv.len());
    if low.len() == 0 {
        return all;
    }
    let ghost pred = |c: Seq<char>| completion_fits(low@, c);
    let ghost views = str_views(all@);
    let mut out: Vec<&'static str> = Vec::new();
    let mut i: usize = 0;
    while i < all.len()
        invariant
            i <= all@.len(),
            views == str_views(all@),
            views == completions(),
            pred == (|c: Seq<char>| completion_fits(low@, c)),
            str_views(out@) == views.take(i as int).filter(pred),
        decreases all@.len() - i,
    {
        reveal_with_fuel(Seq::<_>::filter, 1);
        let c = all[i];
        let lc = lower_str(c);
        assert(views.take(i + 1).drop_last() =~= views.take(i as int));
        assert(views.take(i + 1).last() == c@);
        if starts_with_exec(&lc, &low) {
            out.push(c);
            assert(str_views(out@) =~= str_views(out@).drop_last().push(c@));
        }
        i = i + 1;
    }
    assert(views.take(all@.len() as int) =~= views);
    out
}

// ---------------------------------------------------------------------------
// Laws of the command palette
// ---------------------------------------------------------------------------

proof fn lemma_skip_ws_before(s: Seq<char>, j: int, i: int)
    requires
        0 <= j <= i < s.len(),
        !is_ws(s[i]),
    ensures
        skip_ws_from(s, j) <= i,
    decreases i - j,
{
    if is_ws(s[j]) {
        lemma_skip_ws_before(s, j + 1, i);
    }
}

proof fn lemma_back_ws_after(s: Seq<char>, j: int, lo: int, i: int)
    requires
        0 <= lo <= i < j <= s.len(),
        !is_ws(s[i]),
    ensures
        back_ws_from(s, j, lo) > i,
    decreases j - lo,
{
    if is_ws(s[j - 1]) {
        lemma_back_ws_after(s, j - 1, lo, i);
    }
}

/// A character that is not whitespace survives trimming.
pub proof fn lemma_trim_keeps_non_ws(s: Seq<char>, i: int)
    requires
        0 <= i < s.len(),
        !is_ws(s[i]),
    ensures
        trim_start(s) <= i < trim_end(s),
        trim(s)[i - trim_start(s)] == s[i],
{
    lemma_trim_bounds(s);
    lemma_skip_ws_before(s, 0, i);
    lemma_back_ws_after(s, s.len() as int, trim_start(s), i);
    lemma_trim_bounds(s);
}

/// A line that holds a shell operator anywhere is never accepted.
pub proof fn law_shell_operators_rejected(input: Seq<char>)
    requires
        has_shell_operator(input),
    ensures
        spec_parse_command(input) is Err,
{
    let i = choose|i: int| 0 <= i < input.len() && is_shell_operator(#[trigger] input[i]);
    lemma_trim_keeps_non_ws(input, i);
    lemma_trim_bounds(input);
    let raw = trim(input);
    let k = i - trim_start(input);
    assert(0 <= k < raw.len());
    assert(raw[k] == input[i]);
    assert(is_shell_operator(raw[k]));
    assert(has_shell_operator(raw));
}

/// The bounds that every accepted command keeps: process ids above 0,
/// nice values in -20..=19, an audit window of 1..=200 events, a process
/// listing limit of at least 1 and a known sort key.
pub open spec fn command_is_bounded(c: Command) -> bool {
    match c {
        Command::KillProcess { pid } => pid > 0,
        Command::ReniceProcess { pid, nice } => pid > 0 && -20 <= nice <= 19,
        Command::ShowAudit { last } => 1 <= last <= 200,
        Command::ShowProcesses { sort, limit } => (sort matches Some(v) ==> is_valid_sort(v)) && (
        limit matches Some(l) ==> l >= 1),
        _ => true,
    }
}

proof fn lemma_flags_bounded(
    rest: Seq<Seq<char>>,
    i: int,
    sort: Option<Seq<char>>,
    limit: Option<usize>,
)
    requires
        sort matches Some(v) ==> is_valid_sort(v),
        limit matches Some(l) ==> l >= 1,
    ensures
        parse_process_flags(rest, i, sort, limit) matches Ok(c) ==> command_is_bounded(c),
    decreases rest.len() - i,
{
    if i < 0 || i >= rest.len() {
    } else if rest[i] == "--sort"@ && i + 1 < rest.len() {
        let v = ascii_lower(rest[i + 1]);
        if is_valid_sort(v) {
            lemma_flags_bounded(rest, i + 2, Some(v), limit);
        }
    } else if rest[i] == "--limit"@ && i + 1 < rest.len() {
        lemma_parse_unsigned_range(rest[i + 1], usize::MAX as int);
        match parse_unsigned(rest[i + 1], usize::MAX as int) {
            None => {},
            Some(n) => if n != 0 {
                lemma_flags_bounded(rest, i + 2, sort, Some(n as usize));
            },
        }
    }
}

/// Every command that the palette accepts stays within its bounds.
pub proof fn law_accepted_commands_are_bounded(input: Seq<char>)
    ensures
        spec_parse_command(input) matches Ok(c) ==> command_is_bounded(c),
{
    let t = split_ws(trim(input));
    lemma_flags_bounded(t.skip(2), 0, None, None);
    lemma_parse_unsigned_range(t[1], u32::MAX as int);
    lemma_parse_unsigned_range(t[2], u32::MAX as int);
    lemma_parse_unsigned_range(t[3], usize::MAX as int);
}

/// An accepted command came from a trimmed line of 1 to 256 bytes without
/// any shell operator.
pub proof fn law_accepted_commands_are_clean(input: Seq<char>)
    ensures
        spec_parse_command(input) is Ok ==> {
            let raw = trim(input);
            &&& 0 < raw.len()
            &&& utf8_len(raw) <= 256
            &&& !has_shell_operator(raw)
            &&& !has_shell_operator(input)
        },
{
    if has_shell_operator(input) {
        law_shell_operators_rejected(input);
    }
}

/// A word of a command line: at least one character, none of them
/// whitespace or a shell operator.
pub open spec fn is_plain_word(w: Seq<char>) -> bool {
    &&& w.len() >= 1
    &&& forall|i: int| 0 <= i < w.len() ==> !is_ws(#[trigger] w[i]) && !is_shell_operator(w[i])
}

/// Words joined by single spaces split back into those words, start and
/// end with a word, and hold no shell operator.
proof fn lemma_spaced_words(parts: Seq<Seq<char>>)
    requires
        parts.len() >= 1,
        forall|k: int| 0 <= k < parts.len() ==> is_plain_word(#[trigger] parts[k]),
    ensures
        split_ws(crate::text::join_with(parts, seq![' '])) == parts,
        !has_shell_operator(crate::text::join_with(parts, seq![' '])),
        crate::text::join_with(parts, seq![' ']).len() >= 1,
        !is_ws(crate::text::join_with(parts, seq![' '])[0]),
        !is_ws(crate::text::join_with(parts, seq![' ']).last()),
    decreases parts.len(),
{
    let sp = seq![' '];
    let s = crate::text::join_with(parts, sp);
    let w = parts.last();
    assert(is_plain_word(parts[parts.len() - 1]));
    assert forall|i: int| 0 <= i < w.len() implies !crate::text::is_sep(true, #[trigger] w[i]) by {}
    if parts.len() == 1 {
        let e = Seq::<char>::empty();
        assert(e + w =~= w);
        assert(crate::text::split_by(e, true) =~= Seq::<Seq<char>>::empty());
        crate::text::lemma_split_by_push_word(e, w, true);
        assert(seq![w] =~= parts);
        assert(is_plain_word(parts[0]));
    } else {
        let front = parts.drop_last();
        assert forall|k: int| 0 <= k < front.len() implies is_plain_word(#[trigger] front[k]) by {
            assert(front[k] == parts[k]);
        }
        lemma_spaced_words(front);
        let j = crate::text::join_with(front, sp);
        assert(j + sp =~= j.push(' '));
        crate::text::lemma_split_by_push_sep(j, true, ' ');
        crate::text::lemma_split_by_push_word(j + sp, w, true);
        assert(s == j + sp + w);
        assert(front.push(w) =~= parts);
        assert(s[0] == j[0]);
        assert(s.last() == w.last());
        assert forall|i: int| 0 <= i < s.len() implies !is_shell_operator(#[trigger] s[i]) by {
            if i < j.len() {
                assert(s[i] == j[i]);
            } else if i > j.len() {
                assert(s[i] == w[i - j.len() - 1]);
            }
        }
    }
}

/// A line of at most 64 characters made of words joined by single spaces
/// is read as exactly those words.
proof fn lemma_spaced_line_parses(parts: Seq<Seq<char>>)
    requires
        parts.len() >= 1,
        forall|k: int| 0 <= k < parts.len() ==> is_plain_word(#[trigger] parts[k]),
        crate::text::join_with(parts, seq![' ']).len() <= 64,
    ensures
        spec_parse_command(crate::text::join_with(parts, seq![' '])) == parse_tokens(parts),
{
    let s = crate::text::join_with(parts, seq![' ']);
    lemma_spaced_words(parts);
    assert(skip_ws_from(s, 0) == 0);
    assert(back_ws_from(s, s.len() as int, 0) == s.len());
    assert(trim(s) =~= s);
    crate::text::lemma_utf8_len_at_most_four_per_char(s);
}

/// The decimal form of a number is a word of a command line.
proof fn lemma_decimal_is_plain_word(n: nat)
    ensures
        is_plain_word(crate::text::decimal(n)),
        crate::text::decimal(n)[0] != '+',
        crate::text::decimal(n)[0] != '-',
        crate::text::all_digits(crate::text::decimal(n)),
        crate::text::digits_value(crate::text::decimal(n)) == n,
{
    let d = crate::text::decimal(n);
    crate::text::lemma_decimal_digits(n);
    assert(crate::text::is_digit(d[0]));
    assert forall|i: int| 0 <= i < d.len() implies !is_ws(#[trigger] d[i]) && !is_shell_operator(
        d[i],
    ) by {
        assert(crate::text::is_digit(d[i]));
    }
}

/// Two and three words joined by single spaces.
proof fn lemma_join_two_three(a: Seq<char>, b: Seq<char>, c: Seq<char>)
    ensures
        crate::text::join_with(seq![a, b], seq![' ']) == a + seq![' '] + b,
        crate::text::join_with(seq![a, b, c], seq![' ']) == a + seq![' '] + b + seq![' '] + c,
{
    let sp = seq![' '];
    assert(seq![a, b].drop_last() =~= seq![a]);
    assert(seq![a, b, c].drop_last() =~= seq![a, b]);
    assert(crate::text::join_with(seq![a], sp) == a);
    assert(crate::text::join_with(seq![a, b], sp) == crate::text::join_with(seq![a], sp) + sp + b);
    assert(crate::text::join_with(seq![a, b, c], sp) == crate::text::join_with(seq![a, b], sp) + sp
        + c);
}

/// `show audit --last N`, for any `N` written in decimal, asks for the last
/// `N` audit events, but for at most 200 of them; 0 is refused.
pub proof fn law_audit_window_is_capped(n: usize)
    ensures
        spec_parse_command("show audit --last "@ + crate::text::decimal(n as nat)) == if n == 0 {
            Err::<Command, Seq<char>>("--last must be >= 1"@)
        } else {
            Ok(Command::ShowAudit { last: if n < 200 { n } else { 200 } })
        },
{
    let d = crate::text::decimal(n as nat);
    lemma_decimal_is_plain_word(n as nat);
    reveal_with_fuel(crate::text::ten_pow, 21);
    crate::text::lemma_decimal_len(n as nat, 20);
    reveal_strlit("show audit --last ");
    reveal_strlit("show");
    reveal_strlit("audit");
    reveal_strlit("--last");
    reveal_strlit("processes");
    reveal_strlit("procs");
    let w0 = "show"@;
    let w1 = "audit"@;
    let w2 = "--last"@;
    let parts = seq![w0, w1, w2, d];
    assert(parts.drop_last().drop_last() =~= seq![w0, w1]);
    assert(parts.drop_last() =~= seq![w0, w1, w2]);
    lemma_join_two_three(w0, w1, w2);
    assert("show audit --last "@ + d =~= crate::text::join_with(parts, seq![' ']));
    assert(is_plain_word(w0));
    assert(is_plain_word(w1));
    assert(is_plain_word(w2));
    assert forall|k: int| 0 <= k < parts.len() implies is_plain_word(#[trigger] parts[k]) by {}
    lemma_spaced_line_parses(parts);
    assert(w1 != "processes"@);
    assert(w1[0] != "procs"@[0]);
    assert(w1 != "procs"@);
    assert(parse_unsigned(d, usize::MAX as int) == Some(n as int));
}

/// `kill PID`, for any pid written in decimal, asks to kill that process;
/// pid 0 is refused.
pub proof fn law_kill_names_the_pid(pid: u32)
    ensures
        spec_parse_command("kill "@ + crate::text::decimal(pid as nat)) == if pid == 0 {
            Err::<Command, Seq<char>>("pid must be > 0"@)
        } else {
            Ok(Command::KillProcess { pid })
        },
{
    let d = crate::text::decimal(pid as nat);
    lemma_decimal_is_plain_word(pid as nat);
    reveal_with_fuel(crate::text::ten_pow, 11);
    crate::text::lemma_decimal_len(pid as nat, 10);
    reveal_strlit("kill ");
    reveal_strlit("kill");
    reveal_strlit("show");
    reveal_strlit("help");
    let w0 = "kill"@;
    let parts = seq![w0, d];
    lemma_join_two_three(w0, d, d);
    assert("kill "@ + d =~= crate::text::join_with(parts, seq![' ']));
    assert(is_plain_word(w0));
    assert forall|k: int| 0 <= k < parts.len() implies is_plain_word(#[trigger] parts[k]) by {}
    lemma_spaced_line_parses(parts);
    assert(w0[0] != "show"@[0]);
    assert(w0 != "show"@);
    assert(w0[0] != "help"@[0]);
    assert(w0 != "help"@);
    assert(parse_unsigned(d, u32::MAX as int) == Some(pid as int));
}

/// `renice NICE PID`, for any nice value and pid written in decimal, asks
/// to renice that process to that value when it lies in -20..=19, and is
/// refused otherwise; pid 0 is refused.
pub proof fn law_renice_names_the_value(nice: i32, pid: u32)
    ensures
        spec_parse_command(
            "renice "@ + crate::text::signed_decimal(nice as int) + " "@ + crate::text::decimal(
                pid as nat,
            ),
        ) == if pid == 0 {
            Err::<Command, Seq<char>>("pid must be > 0"@)
        } else if -20 <= nice <= 19 {
            Ok(Command::ReniceProcess { pid, nice })
        } else {
            Err("nice must be between -20 and 19"@)
        },
{
    let d = crate::text::decimal(pid as nat);
    let v = crate::text::signed_decimal(nice as int);
    let m: nat = if nice < 0 { (-nice) as nat } else { nice as nat };
    let dm = crate::text::decimal(m);
    lemma_decimal_is_plain_word(pid as nat);
    lemma_decimal_is_plain_word(m);
    reveal_with_fuel(crate::text::ten_pow, 11);
    crate::text::lemma_decimal_len(pid as nat, 10);
    crate::text::lemma_decimal_len(m, 10);
    if nice < 0 {
        assert(v == seq!['-'] + dm);
        assert(v.drop_first() =~= dm);
        assert forall|i: int| 0 <= i < v.len() implies !is_ws(#[trigger] v[i]) && !is_shell_operator(
            v[i],
        ) by {
            if i > 0 {
                assert(v[i] == dm[i - 1]);
            }
        }
    } else {
        assert(v == dm);
    }
    assert(is_plain_word(v));
    assert(crate::text::parse_i32(v) == Some(nice as int));
    reveal_strlit("renice ");
    reveal_strlit("renice");
    reveal_strlit(" ");
    reveal_strlit("show");
    reveal_strlit("help");
    reveal_strlit("kill");
    let w0 = "renice"@;
    let parts = seq![w0, v, d];
    lemma_join_two_three(w0, v, d);
    assert("renice "@ + v + " "@ + d =~= crate::text::join_with(parts, seq![' ']));
    assert(is_plain_word(w0));
    assert forall|k: int| 0 <= k < parts.len() implies is_plain_word(#[trigger] parts[k]) by {}
    lemma_spaced_line_parses(parts);
    assert(w0 != "show"@);
    assert(w0 != "help"@);
    assert(w0 != "kill"@);
    assert(parse_unsigned(d, u32::MAX as int) == Some(pid as int));
}

} // verus!
