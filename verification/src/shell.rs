//! The console's command line: what has been typed, the history of
//! entered commands, browsing it with the arrow keys, and completion.
use vstd::prelude::*;

use std::collections::VecDeque;

use crate::command::{filtered_command_completions, spec_filtered_completions, str_views};

verus! {

broadcast use vstd::string::group_string_axioms;

/// The most commands the history keeps.
pub const HISTORY_CAP: usize = 50;

pub open spec fn views(v: Seq<String>) -> Seq<Seq<char>> {
    v.map_values(|s: String| s@)
}

/// The history after a command line is entered: empty lines and a
/// repetition of the last entry are not recorded; otherwise the oldest
/// entries leave until fewer than [`HISTORY_CAP`] remain, and the line is
/// added.
pub open spec fn spec_record(h: Seq<Seq<char>>, line: Seq<char>) -> Seq<Seq<char>> {
    if line.len() == 0 || (h.len() > 0 && h.last() == line) {
        h
    } else if h.len() >= HISTORY_CAP {
        h.subrange(h.len() - (HISTORY_CAP - 1), h.len() as int).push(line)
    } else {
        h.push(line)
    }
}

/// The entry `k` places before the newest one.
pub open spec fn spec_from_newest(h: Seq<Seq<char>>, k: int) -> Option<Seq<char>> {
    if 0 <= k && k + 1 <= h.len() {
        Some(h[h.len() - 1 - k])
    } else {
        None
    }
}

/// The state of the command line, as contracts speak of it.
pub struct ShellModel {
    pub history: Seq<Seq<char>>,
    pub browse: Option<usize>,
    pub draft: Seq<char>,
    pub input: Seq<char>,
}

/// The up arrow: with an empty history nothing changes; the first press
/// keeps the typed line aside and shows the newest entry; each further
/// press shows the next older one, up to the oldest.
pub open spec fn spec_history_up(m: ShellModel) -> ShellModel {
    if m.history.len() == 0 {
        m
    } else {
        match m.browse {
            None => ShellModel {
                browse: Some(0usize),
                draft: m.input,
                input: m.history.last(),
                ..m
            },
            Some(k) => if k + 1 < m.history.len() {
                ShellModel {
                    browse: Some((k + 1) as usize),
                    input: m.history[m.history.len() - 2 - k],
                    ..m
                }
            } else {
                m
            },
        }
    }
}

/// The down arrow: shows the next newer entry, and after the newest the
/// line that was typed before browsing.
pub open spec fn spec_history_down(m: ShellModel) -> ShellModel {
    match m.browse {
        None => m,
        Some(k) => if k == 0 {
            ShellModel { browse: None, input: m.draft, draft: Seq::empty(), ..m }
        } else {
            ShellModel {
                browse: Some((k - 1) as usize),
                input: match spec_from_newest(m.history, k - 1) {
                    Some(e) => e,
                    None => m.input,
                },
                ..m
            }
        },
    }
}

/// The command line being edited.
pub struct CommandShell {
    history: VecDeque<String>,
    browse: Option<usize>,
    draft: String,
    input: String,
}

impl CommandShell {
    pub closed spec fn history(&self) -> Seq<Seq<char>> {
        views(self.history@)
    }

    /// Which entry, counted back from the newest, the line shows while the
    /// history is browsed.
    pub closed spec fn browsing(&self) -> Option<usize> {
        self.browse
    }

    /// What was typed before browsing began.
    pub closed spec fn draft(&self) -> Seq<char> {
        self.draft@
    }

    pub closed spec fn line(&self) -> Seq<char> {
        self.input@
    }

    pub open spec fn model(&self) -> ShellModel {
        ShellModel {
            history: self.history(),
            browse: self.browsing(),
            draft: self.draft(),
            input: self.line(),
        }
    }

    /// An empty line with no history.
    pub fn new() -> (r: CommandShell)
        ensures
            r.history() == Seq::<Seq<char>>::empty(),
            r.browsing() is None,
            r.draft() == Seq::<char>::empty(),
            r.line() == Seq::<char>::empty(),
    {
        let r = CommandShell {
            history: VecDeque::new(),
            browse: None,
            draft: String::new(),
            input: String::new(),
        };
        assert(views(r.history@) =~= Seq::<Seq<char>>::empty());
        r
    }

    /// The line as typed.
    pub fn input(&self) -> (r: &str)
        ensures
            r@ == self.line(),
    {
        self.input.as_str()
    }

    /// Replaces the line, as typing does; browsing is not affected.
    pub fn set_input(&mut self, text: &str)
        ensures
            final(self).line() == text@,
            final(self).history() == old(self).history(),
            final(self).browsing() == old(self).browsing(),
            final(self).draft() == old(self).draft(),
    {
        self.input = text.to_owned();
    }

    /// Stops browsing, as entering a line does.
    pub fn reset_browse(&mut self)
        ensures
            final(self).browsing() is None,
            final(self).line() == old(self).line(),
            final(self).history() == old(self).history(),
            final(self).draft() == old(self).draft(),
    {
        self.browse = None;
    }

    /// Records an entered command line.
    pub fn record(&mut self, line: &str)
        ensures
            final(self).history() == spec_record(old(self).history(), line@),
            final(self).line() == old(self).line(),
            final(self).browsing() == old(self).browsing(),
            final(self).draft() == old(self).draft(),
    {
        if line.unicode_len() == 0 {
            return;
        }
        let n = self.history.len();
        if n > 0 {
            let last = &self.history[n - 1];
            assert(views(self.history@)[n - 1] == last@);
            if crate::text::str_eq(last.as_str(), line) {
                return;
            }
        }
        let ghost h0 = views(self.history@);
        while self.history.len() >= HISTORY_CAP
            invariant
                h0.len() == n,
                n > 0 ==> h0.last() != line@,
                views(self.history@) == h0.subrange(n - self.history@.len(), n as int),
                self.history@.len() <= n,
                n >= HISTORY_CAP ==> self.history@.len() >= HISTORY_CAP - 1,
                n < HISTORY_CAP ==> self.history@.len() == n,
                self.input@ == old(self).input@,
                self.draft@ == old(self).draft@,
                self.browse == old(self).browse,
            decreases self.history@.len(),
        {
            let ghost before = self.history@;
            let _ = self.history.pop_front();
            assert(self.history@ =~= before.subrange(1, before.len() as int));
            assert(views(self.history@) =~= views(before).subrange(1, before.len() as int));
            assert(views(self.history@) =~= h0.subrange(n - self.history@.len(), n as int));
        }
        let ghost kept = self.history@;
        self.history.push_back(line.to_owned());
        proof {
            assert(views(self.history@) =~= views(kept).push(line@));
            if n >= HISTORY_CAP {
                assert(n - kept.len() == n - (HISTORY_CAP - 1));
            } else {
                assert(kept.len() == n);
                assert(h0.subrange(0, n as int) =~= h0);
            }
        }
    }

    /// The entry `k` places before the newest one.
    pub fn entry_from_newest(&self, k: usize) -> (r: Option<&String>)
        ensures
            match r {
                Some(e) => spec_from_newest(self.history(), k as int) == Some(e@),
                None => spec_from_newest(self.history(), k as int) is None,
            },
    {
        let len = self.history.len();
        if k < len {
            let e = &self.history[len - 1 - k];
            assert(views(self.history@)[len - 1 - k] == e@);
            Some(e)
        } else {
            None
        }
    }

    /// The up arrow: the first press keeps the typed line aside and shows
    /// the newest entry; each further press shows the next older one, up to
    /// the oldest.
    pub fn history_up(&mut self)
        ensures
            final(self).model() == spec_history_up(old(self).model()),
    {
        let len = self.history.len();
        if len == 0 {
            return;
        }
        match self.browse {
            None => {
                self.draft = self.input.clone();
                self.browse = Some(0);
                let e = self.history[len - 1].clone();
                assert(views(self.history@)[len - 1] == e@);
                self.input = e;
            },
            Some(k) => {
                if k < len - 1 {
                    self.browse = Some(k + 1);
                    let e = self.history[len - 2 - k].clone();
                    assert(views(self.history@)[len - 2 - k] == e@);
                    self.input = e;
                }
            },
        }
    }

    /// The down arrow: shows the next newer entry, and after the newest
    /// the line that was typed before browsing.
    pub fn history_down(&mut self)
        ensures
            final(self).model() == spec_history_down(old(self).model()),
    {
        match self.browse {
            None => {},
            Some(k) => {
                if k == 0 {
                    self.browse = None;
                    self.input = self.draft.clone();
                    self.draft = String::new();
                } else {
                    self.browse = Some(k - 1);
                    let len = self.history.len();
                    if k - 1 < len {
                        let e = self.history[len - k].clone();
                        assert(views(self.history@)[len - k] == e@);
                        self.input = e;
                    }
                }
            },
        }
    }

    /// Tab: the line becomes the first command that completes it, if any.
    pub fn tab_complete(&mut self)
        ensures
            final(self).history() == old(self).history(),
            final(self).browsing() == old(self).browsing(),
            final(self).draft() == old(self).draft(),
            final(self).line() == if spec_filtered_completions(old(self).line()).len() > 0 {
                spec_filtered_completions(old(self).line())[0]
            } else {
                old(self).line()
            },
    {
        let comps = filtered_command_completions(self.input.as_str());
        if comps.len() > 0 {
            assert(str_views(comps@)[0] == comps@[0]@);
            self.input = comps[0].to_owned();
        }
    }
}

/// Browsing up and straight back down gives the typed line back and
/// ends the browsing; from inside the history, up then down returns to
/// the same entry.
pub proof fn law_up_then_down_restores_the_line(m: ShellModel)
    requires
        m.history.len() <= usize::MAX,
    ensures
        m.browse is None ==> spec_history_down(spec_history_up(m)).input == m.input
            && spec_history_down(spec_history_up(m)).browse is None,
        match m.browse {
            Some(k) => k + 1 < m.history.len() ==> spec_history_down(spec_history_up(m)).browse
                == m.browse && spec_history_down(spec_history_up(m)).input == m.history[m.history.len()
                - 1 - k],
            None => true,
        },
        spec_history_down(spec_history_up(m)).history == m.history,
{
}

/// The history never holds an empty line or the same line twice in a row,
/// and never more than [`HISTORY_CAP`] entries.
pub proof fn law_history_is_bounded_and_deduplicated(h: Seq<Seq<char>>, line: Seq<char>)
    requires
        h.len() <= HISTORY_CAP,
        forall|i: int| 0 <= i < h.len() ==> (#[trigger] h[i]).len() > 0,
        forall|i: int| 0 <= i < h.len() - 1 ==> #[trigger] h[i] != h[i + 1],
    ensures
        spec_record(h, line).len() <= HISTORY_CAP,
        forall|i: int|
            0 <= i < spec_record(h, line).len() ==> (#[trigger] spec_record(h, line)[i]).len() > 0,
        forall|i: int|
            0 <= i < spec_record(h, line).len() - 1 ==> #[trigger] spec_record(h, line)[i]
                != spec_record(h, line)[i + 1],
{
    let r = spec_record(h, line);
    if !(line.len() == 0 || (h.len() > 0 && h.last() == line)) {
        if h.len() >= HISTORY_CAP {
            let s = h.subrange(h.len() - (HISTORY_CAP - 1), h.len() as int);
            assert forall|i: int| 0 <= i < r.len() - 1 implies #[trigger] r[i] != r[i + 1] by {
                if i + 1 < r.len() - 1 {
                    assert(r[i] == h[h.len() - (HISTORY_CAP - 1) + i]);
                    assert(r[i + 1] == h[h.len() - (HISTORY_CAP - 1) + i + 1]);
                } else {
                    assert(r[i] == h.last());
                }
            }
            assert forall|i: int| 0 <= i < r.len() implies (#[trigger] r[i]).len() > 0 by {
                if i < r.len() - 1 {
                    assert(r[i] == h[h.len() - (HISTORY_CAP - 1) + i]);
                }
            }
        } else {
            assert forall|i: int| 0 <= i < r.len() - 1 implies #[trigger] r[i] != r[i + 1] by {
                if i + 1 < r.len() - 1 {
                    assert(r[i] == h[i]);
                    assert(r[i + 1] == h[i + 1]);
                } else {
                    assert(r[i] == h.last());
                }
            }
            assert forall|i: int| 0 <= i < r.len() implies (#[trigger] r[i]).len() > 0 by {
                if i < r.len() - 1 {
                    assert(r[i] == h[i]);
                }
            }
        }
    }
}

} // verus!
