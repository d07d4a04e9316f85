//! Alert rules fire only after their condition held for a number of
//! consecutive collection cycles; this module keeps those streaks.
use vstd::prelude::*;

use crate::text::{chars_of, vec_eq};

verus! {

broadcast use vstd::string::group_string_axioms;

/// How urgent a firing alert is.
#[derive(Debug, Clone, Copy, PartialEq, Eq, Structural)]
pub enum AlertSeverity {
    Info,
    Warning,
    Critical,
}

impl AlertSeverity {
    pub open spec fn name(self) -> Seq<char> {
        match self {
            AlertSeverity::Info => "info"@,
            AlertSeverity::Warning => "warning"@,
            AlertSeverity::Critical => "critical"@,
        }
    }

    /// The lowercase name used in alert policies.
    pub fn as_str(self) -> (r: &'static str)
        ensures
            r@ == self.name(),
    {
        match self {
            AlertSeverity::Info => "info",
            AlertSeverity::Warning => "warning",
            AlertSeverity::Critical => "critical",
        }
    }
}

/// The streak after one more cycle: one more when the condition held
/// (saturating at `u32::MAX`), otherwise back to zero.
pub open spec fn next_streak(prev: u32, matched: bool) -> u32 {
    if matched {
        if prev == u32::MAX {
            prev
        } else {
            (prev + 1) as u32
        }
    } else {
        0
    }
}

/// The cycles a rule needs: its `for_cycles`, and at least one.
pub open spec fn needed_cycles(for_cycles: u32) -> u32 {
    if for_cycles < 1 {
        1
    } else {
        for_cycles
    }
}

/// A rule fires in a cycle where its condition held and its streak has
/// reached the cycles it needs.
pub open spec fn spec_fires(streak: u32, matched: bool, for_cycles: u32) -> bool {
    matched && streak >= needed_cycles(for_cycles)
}

/// The first entry at or after `i` that belongs to rule `id`, or the length.
pub open spec fn find_entry(s: Seq<(String, u32)>, id: Seq<char>, i: int) -> int
    decreases s.len() - i,
{
    if i < 0 || i >= s.len() {
        s.len() as int
    } else if s[i].0@ == id {
        i
    } else {
        find_entry(s, id, i + 1)
    }
}

/// The streak recorded for rule `id`; zero for a rule not seen yet.
pub open spec fn streak_in(s: Seq<(String, u32)>, id: Seq<char>) -> u32 {
    let j = find_entry(s, id, 0);
    if 0 <= j < s.len() {
        s[j].1
    } else {
        0
    }
}

proof fn lemma_find_entry_range(s: Seq<(String, u32)>, id: Seq<char>, i: int)
    requires
        0 <= i <= s.len(),
    ensures
        i <= find_entry(s, id, i) <= s.len(),
        find_entry(s, id, i) < s.len() ==> s[find_entry(s, id, i)].0@ == id,
        forall|j: int| i <= j < find_entry(s, id, i) ==> s[j].0@ != id,
    decreases s.len() - i,
{
    if i < s.len() && s[i].0@ != id {
        lemma_find_entry_range(s, id, i + 1);
    }
}

/// Two entry lists that agree, at every position of the shorter one, on
/// whether the entry belongs to `k`, and whose extra positions do not,
/// find the same entry for `k`.
proof fn lemma_find_entry_same(s: Seq<(String, u32)>, t: Seq<(String, u32)>, k: Seq<char>, i: int)
    requires
        s.len() <= t.len(),
        0 <= i <= s.len(),
        forall|j: int| 0 <= j < s.len() ==> ((s[j].0@ == k) <==> (t[j].0@ == k)),
        forall|j: int| s.len() <= j < t.len() ==> t[j].0@ != k,
    ensures
        find_entry(s, k, i) < s.len() ==> find_entry(t, k, i) == find_entry(s, k, i),
        find_entry(s, k, i) >= s.len() ==> find_entry(t, k, i) >= t.len(),
    decreases s.len() - i,
{
    if i < s.len() && s[i].0@ != k {
        lemma_find_entry_same(s, t, k, i + 1);
    } else if i == s.len() {
        lemma_find_entry_rest(t, k, i);
    }
}

proof fn lemma_find_entry_rest(t: Seq<(String, u32)>, k: Seq<char>, i: int)
    requires
        0 <= i <= t.len(),
        forall|j: int| i <= j < t.len() ==> t[j].0@ != k,
    ensures
        find_entry(t, k, i) == t.len(),
    decreases t.len() - i,
{
    if i < t.len() {
        lemma_find_entry_rest(t, k, i + 1);
    }
}

/// The streaks of the alert rules, by rule id.
pub struct AlertStreaks {
    entries: Vec<(String, u32)>,
}

impl AlertStreaks {
    /// The streak of each rule, by its id.
    pub closed spec fn streak(&self, id: Seq<char>) -> u32 {
        streak_in(self.entries@, id)
    }

    /// No rule has a streak yet.
    pub fn new() -> (r: AlertStreaks)
        ensures
            forall|id: Seq<char>| #[trigger] r.streak(id) == 0,
    {
        AlertStreaks { entries: Vec::new() }
    }

    /// Records one cycle of rule `rule_id`, whose condition `matched` or
    /// not, and tells whether the rule fires.
    pub fn observe(&mut self, rule_id: &str, matched: bool, for_cycles: u32) -> (fires: bool)
        ensures
            final(self).streak(rule_id@) == next_streak(old(self).streak(rule_id@), matched),
            forall|k: Seq<char>| k != rule_id@ ==> #[trigger] final(self).streak(k) == old(
                self,
            ).streak(k),
            fires == spec_fires(final(self).streak(rule_id@), matched, for_cycles),
    {
        let ghost s = self.entries@;
        let idv = chars_of(rule_id);
        proof {
            lemma_find_entry_range(s, rule_id@, 0);
        }
        let mut i: usize = 0;
        while i < self.entries.len()
            invariant
                self.entries@ == s,
                idv@ == rule_id@,
                i <= s.len(),
                find_entry(s, rule_id@, i as int) == find_entry(s, rule_id@, 0),
            ensures
                i <= s.len(),
                i == find_entry(s, rule_id@, 0),
            decreases s.len() - i,
        {
            let ev = chars_of(self.entries[i].0.as_str());
            if vec_eq(&ev, &idv) {
                assert(s[i as int].0@ == rule_id@);
                break;
            }
            i = i + 1;
        }
        let prev: u32 = if i < self.entries.len() {
            self.entries[i].1
        } else {
            0
        };
        let next: u32 = if matched {
            prev.saturating_add(1)
        } else {
            0
        };
        if i < self.entries.len() {
            let name = self.entries[i].0.clone();
            self.entries.set(i, (name, next));
            proof {
                let t = self.entries@;
                assert forall|k: Seq<char>| k != rule_id@ implies #[trigger] streak_in(t, k)
                    == streak_in(s, k) by {
                    lemma_find_entry_same(s, t, k, 0);
                    lemma_find_entry_range(s, k, 0);
                }
                lemma_find_entry_same(s, t, rule_id@, 0);
            }
        } else {
            self.entries.push((rule_id.to_owned(), next));
            proof {
                let t = self.entries@;
                assert(t[s.len() as int].0@ == rule_id@);
                assert forall|k: Seq<char>| k != rule_id@ implies #[trigger] streak_in(t, k)
                    == streak_in(s, k) by {
                    lemma_find_entry_same(s, t, k, 0);
                    lemma_find_entry_range(s, k, 0);
                }
                lemma_find_entry_rest(s, rule_id@, 0);
                lemma_find_entry_range(t, rule_id@, 0);
                assert(t[s.len() as int].0@ == rule_id@);
                if find_entry(t, rule_id@, 0) < s.len() {
                    assert(t[find_entry(t, rule_id@, 0)] == s[find_entry(t, rule_id@, 0)]);
                }
            }
        }
        matched && next >= (if for_cycles < 1 {
            1
        } else {
            for_cycles
        })
    }
}

// ---------------------------------------------------------------------------
// Laws of the streaks
// ---------------------------------------------------------------------------

/// The streak left by a history of cycles (oldest first), from zero.
pub open spec fn streak_of(history: Seq<bool>) -> u32
    decreases history.len(),
{
    if history.len() == 0 {
        0
    } else {
        next_streak(streak_of(history.drop_last()), history.last())
    }
}

/// The number of cycles at the end of the history in which the condition held.
pub open spec fn trailing_matches(history: Seq<bool>) -> nat
    decreases history.len(),
{
    if history.len() == 0 || !history.last() {
        0
    } else {
        trailing_matches(history.drop_last()) + 1
    }
}

/// The streak counts the consecutive cycles, up to the end, in which the
/// condition held (saturating at `u32::MAX`).
pub proof fn law_streak_counts_consecutive_matches(history: Seq<bool>)
    ensures
        streak_of(history) == if trailing_matches(history) > u32::MAX {
            u32::MAX as int
        } else {
            trailing_matches(history) as int
        },
    decreases history.len(),
{
    if history.len() > 0 {
        law_streak_counts_consecutive_matches(history.drop_last());
    }
}

/// A rule fires exactly in the cycles that end a run of at least the
/// needed number of consecutive matches.
pub proof fn law_fires_after_enough_cycles(history: Seq<bool>, for_cycles: u32)
    requires
        history.len() > 0,
    ensures
        spec_fires(streak_of(history), history.last(), for_cycles) <==> (history.last()
            && trailing_matches(history) >= needed_cycles(for_cycles)),
{
    law_streak_counts_consecutive_matches(history);
}

} // verus!
