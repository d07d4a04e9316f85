//! The decisions of the command workbench: which completion chips it
//! offers, how a destructive action is confirmed, and how a reply is shown.
use vstd::prelude::*;

use crate::command::{
    filtered_command_completions, spec_filtered_completions, starts_with, str_views,
};
use crate::text::{contains_seq, decimal, str_contains, str_eq, trim, trim_str, u64_to_decimal};

verus! {

broadcast use vstd::string::group_string_axioms;

/// The completion chips under the command line: the completions that fit
/// what was typed, unless there are none or the one that fits is exactly
/// the trimmed line.
pub open spec fn spec_completion_chips(typed: Seq<char>) -> Seq<Seq<char>> {
    let comps = spec_filtered_completions(typed);
    if comps.len() == 0 || (comps.len() == 1 && comps[0] == trim(typed)) {
        Seq::empty()
    } else {
        comps
    }
}

pub fn completion_chips(typed: &str) -> (r: Vec<&'static str>)
    ensures
        str_views(r@) == spec_completion_chips(typed@),
{
    let comps = filtered_command_completions(typed);
    if comps.len() == 0 {
        return Vec::new();
    }
    if comps.len() == 1 {
        proof {
            assert(str_views(comps@)[0] == comps@[0]@);
        }
        if str_eq(comps[0], trim_str(typed)) {
            return Vec::new();
        }
    }
    comps
}

/// The label of a chip: the completions that need arguments show them.
pub open spec fn spec_chip_label(c: Seq<char>) -> Seq<char> {
    if c == "renice "@ {
        "renice <nice> <pid>"@
    } else if c == "kill "@ {
        "kill <pid>"@
    } else {
        c
    }
}

pub fn chip_label(c: &'static str) -> (r: &'static str)
    ensures
        r@ == spec_chip_label(c@),
{
    if str_eq(c, "renice ") {
        "renice <nice> <pid>"
    } else if str_eq(c, "kill ") {
        "kill <pid>"
    } else {
        c
    }
}

/// What the operator types to confirm a kill: `KILL <pid>`.
pub open spec fn kill_phrase_text(pid: u32) -> Seq<char> {
    "KILL "@ + decimal(pid as nat)
}

pub fn kill_phrase(pid: u32) -> (r: String)
    ensures
        r@ == kill_phrase_text(pid),
{
    let mut s = "KILL ".to_owned();
    let d = u64_to_decimal(pid as u64);
    s.append(d.as_str());
    s
}

/// A kill goes ahead when the confirmation, trimmed, is exactly its phrase.
pub fn kill_confirmed(confirmation: &str, pid: u32) -> (r: bool)
    ensures
        r == (trim(confirmation@) == kill_phrase_text(pid)),
{
    let phrase = kill_phrase(pid);
    str_eq(trim_str(confirmation), phrase.as_str())
}

/// A reply is shown as a refusal when it starts with `DENIED` or `Invalid`,
/// or mentions `denied`.
pub open spec fn is_refusal_text(msg: Seq<char>) -> bool {
    starts_with(msg, "DENIED"@) || starts_with(msg, "Invalid"@) || contains_seq(msg, "denied"@)
}

fn str_starts_with(s: &str, p: &str) -> (r: bool)
    ensures
        r == starts_with(s@, p@),
{
    let n = p.unicode_len();
    if n > s.unicode_len() {
        return false;
    }
    let head = s.substring_char(0, n);
    str_eq(head, p)
}

pub fn feedback_is_refusal(msg: &str) -> (r: bool)
    ensures
        r == is_refusal_text(msg@),
{
    str_starts_with(msg, "DENIED") || str_starts_with(msg, "Invalid") || str_contains(msg, "denied")
}

} // verus!
