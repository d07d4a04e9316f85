//! The audit feed as the dashboard shows it: which events are refusals,
//! the text filter, the pages, and the analytics over a time window.
use vstd::prelude::*;

use crate::audit::AuditEvent;
use crate::console::string_views;
use crate::text::{
    ascii_lower, contains_lit, contains_seq, contains_vec, decimal, lex_less, lower_str, str_eq,
    lemma_lex_total, lemma_lex_trans, str_lex_less, trim, trim_str,
    u64_to_decimal,
};

verus! {

broadcast use vstd::string::group_string_axioms;

// ---------------------------------------------------------------------------
// Refusals
// ---------------------------------------------------------------------------

/// An event records a refusal when its result mentions `denied`, in any
/// ASCII case.
pub open spec fn is_denial(e: AuditEvent) -> bool {
    contains_seq(ascii_lower(e.result@), "denied"@)
}

pub fn event_is_denial(e: &AuditEvent) -> (r: bool)
    ensures
        r == is_denial(*e),
{
    let low = lower_str(e.result.as_str());
    contains_lit(&low, "denied")
}

/// How many of the events are refusals.
pub open spec fn denial_count(s: Seq<AuditEvent>) -> nat
    decreases s.len(),
{
    if s.len() == 0 {
        0
    } else {
        denial_count(s.drop_last()) + if is_denial(s.last()) {
            1nat
        } else {
            0nat
        }
    }
}

proof fn lemma_denial_count_bound(s: Seq<AuditEvent>)
    ensures
        denial_count(s) <= s.len(),
    decreases s.len(),
{
    if s.len() > 0 {
        lemma_denial_count_bound(s.drop_last());
    }
}

/// The allowed and the refused events of the feed, counted.
pub fn allow_deny_counts(events: &Vec<AuditEvent>) -> (r: (usize, usize))
    ensures
        r.1 == denial_count(events@),
        r.0 + r.1 == events@.len(),
{
    let mut allow: usize = 0;
    let mut deny: usize = 0;
    let mut i: usize = 0;
    assert(events@.subrange(0, 0) =~= Seq::<AuditEvent>::empty());
    while i < events.len()
        invariant
            i <= events@.len(),
            deny == denial_count(events@.subrange(0, i as int)),
            allow + deny == i,
        decreases events@.len() - i,
    {
        proof {
            assert(events@.subrange(0, i + 1).drop_last() =~= events@.subrange(0, i as int));
        }
        if event_is_denial(&events[i]) {
            deny = deny + 1;
        } else {
            allow = allow + 1;
        }
        i = i + 1;
    }
    assert(events@.subrange(0, i as int) =~= events@);
    (allow, deny)
}

// ---------------------------------------------------------------------------
// The text filter
// ---------------------------------------------------------------------------

/// What a filter is matched against: action, target, result, actor and
/// time, separated by single spaces.
pub open spec fn haystack(e: AuditEvent) -> Seq<char> {
    e.action@ + " "@ + e.target@ + " "@ + e.result@ + " "@ + e.actor@ + " "@ + decimal(
        e.ts as nat,
    )
}

/// An event passes a filter when the trimmed filter is empty, or occurs in
/// the event's text, ASCII case ignored.
pub open spec fn passes_filter(e: AuditEvent, filter: Seq<char>) -> bool {
    let f = ascii_lower(trim(filter));
    f.len() == 0 || contains_seq(ascii_lower(haystack(e)), f)
}

fn event_haystack(e: &AuditEvent) -> (r: String)
    ensures
        r@ == haystack(*e),
{
    let mut h = String::new();
    h.append(e.action.as_str());
    h.append(" ");
    h.append(e.target.as_str());
    h.append(" ");
    h.append(e.result.as_str());
    h.append(" ");
    h.append(e.actor.as_str());
    h.append(" ");
    let ts = u64_to_decimal(e.ts);
    h.append(ts.as_str());
    h
}

/// Whether an event passes a filter.
pub fn event_passes(e: &AuditEvent, filter: &str) -> (r: bool)
    ensures
        r == passes_filter(*e, filter@),
{
    let f = lower_str(trim_str(filter));
    if f.len() == 0 {
        return true;
    }
    let h = event_haystack(e);
    let low = lower_str(h.as_str());
    contains_vec(&low, &f)
}

/// The positions of the events that pass a filter, in order.
pub open spec fn matching(s: Seq<AuditEvent>, filter: Seq<char>) -> Seq<usize>
    decreases s.len(),
{
    if s.len() == 0 {
        Seq::empty()
    } else if passes_filter(s.last(), filter) {
        matching(s.drop_last(), filter).push((s.len() - 1) as usize)
    } else {
        matching(s.drop_last(), filter)
    }
}

/// The positions in the feed of the events that pass `filter`.
pub fn filter_events(events: &Vec<AuditEvent>, filter: &str) -> (r: Vec<usize>)
    ensures
        r@ == matching(events@, filter@),
{
    let mut out: Vec<usize> = Vec::new();
    let mut i: usize = 0;
    assert(events@.subrange(0, 0) =~= Seq::<AuditEvent>::empty());
    while i < events.len()
        invariant
            i <= events@.len(),
            out@ == matching(events@.subrange(0, i as int), filter@),
        decreases events@.len() - i,
    {
        proof {
            let sub = events@.subrange(0, i + 1);
            assert(sub.drop_last() =~= events@.subrange(0, i as int));
            assert(sub.last() == events@[i as int]);
        }
        if event_passes(&events[i], filter) {
            out.push(i);
        }
        i = i + 1;
    }
    assert(events@.subrange(0, i as int) =~= events@);
    out
}

/// The positions that `matching` gives are those of the passing events, in
/// increasing order.
pub proof fn law_filter_keeps_exactly_the_passing_events(s: Seq<AuditEvent>, filter: Seq<char>)
    requires
        s.len() <= usize::MAX,
    ensures
        forall|k: int|
            0 <= k < matching(s, filter).len() ==> matching(s, filter)[k] < s.len()
                && passes_filter(s[matching(s, filter)[k] as int], filter),
        forall|a: int, b: int|
            0 <= a < b < matching(s, filter).len() ==> matching(s, filter)[a] < matching(
                s,
                filter,
            )[b],
        forall|i: int|
            0 <= i < s.len() && passes_filter(s[i], filter) ==> matching(s, filter).contains(
                i as usize,
            ),
    decreases s.len(),
{
    if s.len() > 0 {
        let rest = s.drop_last();
        law_filter_keeps_exactly_the_passing_events(rest, filter);
        let m = matching(rest, filter);
        let ms = matching(s, filter);
        let n = s.len() - 1;
        assert forall|k: int| 0 <= k < m.len() implies #[trigger] s[m[k] as int] == rest[m[k] as int]
            by {}
        if passes_filter(s.last(), filter) {
            assert(ms == m.push(n as usize));
            assert forall|k: int| 0 <= k < ms.len() implies ms[k] < s.len() && passes_filter(
                s[ms[k] as int],
                filter,
            ) by {
                if k < m.len() {
                    assert(ms[k] == m[k]);
                }
            }
            assert forall|x: int, y: int| 0 <= x < y < ms.len() implies ms[x] < ms[y] by {
                if y < m.len() {
                    assert(ms[x] == m[x] && ms[y] == m[y]);
                } else {
                    assert(ms[x] == m[x]);
                }
            }
            assert forall|i: int| 0 <= i < s.len() && passes_filter(s[i], filter) implies ms.contains(
                i as usize,
            ) by {
                if i < n {
                    assert(rest[i] == s[i]);
                    let k = choose|k: int| 0 <= k < m.len() && m[k] == i as usize;
                    assert(ms[k] == i as usize);
                } else {
                    assert(ms[ms.len() - 1] == i as usize);
                }
            }
        } else {
            assert(ms == m);
            assert forall|i: int| 0 <= i < s.len() && passes_filter(s[i], filter) implies ms.contains(
                i as usize,
            ) by {
                if i < n {
                    assert(rest[i] == s[i]);
                }
            }
        }
    }
}

// ---------------------------------------------------------------------------
// Pages
// ---------------------------------------------------------------------------

/// One page of the filtered feed: the page shown (counted from 0), how many
/// pages there are, the positions `start..end` it shows, and whether there
/// is a page before and after it.
#[derive(Debug, Clone, Copy, PartialEq, Eq, Structural)]
pub struct AuditPage {
    pub page: usize,
    pub total_pages: usize,
    pub start: usize,
    pub end: usize,
    pub has_prev: bool,
    pub has_next: bool,
}

/// The page of `total` events that a request for page `page` of
/// `size` events shows: none without events; otherwise the page asked for,
/// or the last one when it asks beyond it.
pub open spec fn spec_audit_page(total: usize, page: usize, size: usize) -> Option<AuditPage> {
    if total == 0 {
        None
    } else {
        let tp = ((total + size - 1) / (if size >= 1 {
            size as int
        } else {
            1
        })) as usize;
        let last: usize = if tp >= 1 {
            (tp - 1) as usize
        } else {
            0
        };
        let p: usize = if page <= last {
            page
        } else {
            last
        };
        let start = (p * size) as usize;
        let end: usize = if start + size <= total {
            (start + size) as usize
        } else {
            total
        };
        Some(
            AuditPage {
                page: p,
                total_pages: tp,
                start,
                end,
                has_prev: p > 0,
                has_next: p + 1 < tp,
            },
        )
    }
}

proof fn lemma_page_fits(total: int, size: int, p: int, tp: int)
    requires
        total >= 1,
        size >= 1,
        tp == (total + size - 1) / size,
        0 <= p,
        p <= tp - 1 || (tp == 0 && p == 0),
    ensures
        p * size <= total - 1,
        tp >= 1,
{
    assert(tp * size <= total + size - 1) by (nonlinear_arith)
        requires
            tp == (total + size - 1) / size,
            size >= 1,
    ;
    assert(tp >= 1) by (nonlinear_arith)
        requires
            tp == (total + size - 1) / size,
            size >= 1,
            total >= 1,
    ;
    assert(p * size <= (tp - 1) * size) by (nonlinear_arith)
        requires
            p <= tp - 1,
            size >= 1,
            p >= 0,
    ;
    assert((tp - 1) * size == tp * size - size) by (nonlinear_arith);
}

/// The page to show of `total` filtered events.
pub fn audit_page(total: usize, page: usize, size: usize) -> (r: Option<AuditPage>)
    requires
        total + size <= usize::MAX,
    ensures
        r == spec_audit_page(total, page, size),
{
    if total == 0 {
        return None;
    }
    let divisor: usize = if size >= 1 {
        size
    } else {
        1
    };
    let tp = (total + size - 1) / divisor;
    let last: usize = if tp >= 1 {
        tp - 1
    } else {
        0
    };
    let p: usize = if page <= last {
        page
    } else {
        last
    };
    if size >= 1 {
        proof {
            lemma_page_fits(total as int, size as int, p as int, tp as int);
        }
    }
    let start = p * size;
    let end: usize = if start + size <= total {
        start + size
    } else {
        total
    };
    Some(AuditPage { page: p, total_pages: tp, start, end, has_prev: p > 0, has_next: p + 1 < tp })
}

/// Every filtered event is on exactly the page that its position divided by
/// the page size names, and a page never shows more than `size` events.
pub proof fn law_every_event_is_on_its_page(total: usize, size: usize, i: usize)
    requires
        i < total,
        size >= 1,
        total + size <= usize::MAX,
    ensures
        spec_audit_page(total, (i / size) as usize, size) matches Some(pg) && pg.page == i / size
            && pg.start <= i < pg.end && pg.end - pg.start <= size,
{
    let tp: int = (total + size - 1) / (size as int);
    let q: int = (i / size) as int;
    assert(q * size <= i && i < q * size + size) by (nonlinear_arith)
        requires
            q == i / size,
            size >= 1,
    ;
    assert(q <= tp - 1) by (nonlinear_arith)
        requires
            q * size <= i,
            i < total,
            tp == (total + size - 1) / (size as int),
            size >= 1,
    ;
    lemma_page_fits(total as int, size as int, q, tp);
}

/// The line under the page buttons: `Page <n> of <pages> (<total> events)`,
/// counting pages from 1 and at least one page.
pub open spec fn page_label_text(pg: AuditPage, total: usize) -> Seq<char> {
    "Page "@ + decimal((pg.page + 1) as nat) + " of "@ + decimal(
        (if pg.total_pages >= 1 {
            pg.total_pages
        } else {
            1
        }) as nat,
    ) + " ("@ + decimal(total as nat) + " events)"@
}

pub fn page_label(pg: &AuditPage, total: usize) -> (r: String)
    requires
        pg.page < usize::MAX,
    ensures
        r@ == page_label_text(*pg, total),
{
    let mut s = "Page ".to_owned();
    let n = u64_to_decimal((pg.page + 1) as u64);
    s.append(n.as_str());
    s.append(" of ");
    let tp: usize = if pg.total_pages >= 1 {
        pg.total_pages
    } else {
        1
    };
    let t = u64_to_decimal(tp as u64);
    s.append(t.as_str());
    s.append(" (");
    let c = u64_to_decimal(total as u64);
    s.append(c.as_str());
    s.append(" events)");
    s
}

// ---------------------------------------------------------------------------
// Analytics over a time window
// ---------------------------------------------------------------------------

/// How many events the analytics look at, at most.
pub const ANALYTICS_EVENTS: usize = 480;

/// How many actions the bar chart shows, at most.
pub const TOP_ACTIONS: usize = 10;

/// The events at or after `min_ts`, in order.
pub open spec fn since(s: Seq<AuditEvent>, min_ts: u64) -> Seq<AuditEvent>
    decreases s.len(),
{
    if s.len() == 0 {
        Seq::empty()
    } else if s.last().ts >= min_ts {
        since(s.drop_last(), min_ts).push(s.last())
    } else {
        since(s.drop_last(), min_ts)
    }
}

/// The first `n` items of `s`, or all of them when there are fewer.
pub open spec fn first_n<T>(s: Seq<T>, n: nat) -> Seq<T> {
    if s.len() <= n {
        s
    } else {
        s.take(n as int)
    }
}

/// The events the analytics look at: the first 480 at or after `min_ts`.
pub open spec fn analytics_window(s: Seq<AuditEvent>, min_ts: u64) -> Seq<AuditEvent> {
    first_n(since(s, min_ts), ANALYTICS_EVENTS as nat)
}

/// The hour of the day (UTC) of a Unix time.
pub open spec fn hour_of(ts: u64) -> int {
    ((ts / 3600) % 24) as int
}

/// How many of the events fall in hour `h` of the day.
pub open spec fn hour_count(w: Seq<AuditEvent>, h: int) -> nat
    decreases w.len(),
{
    if w.len() == 0 {
        0
    } else {
        hour_count(w.drop_last(), h) + if hour_of(w.last().ts) == h {
            1nat
        } else {
            0nat
        }
    }
}

/// How many of the events record action `a`.
pub open spec fn action_count(w: Seq<AuditEvent>, a: Seq<char>) -> nat
    decreases w.len(),
{
    if w.len() == 0 {
        0
    } else {
        action_count(w.drop_last(), a) + if w.last().action@ == a {
            1nat
        } else {
            0nat
        }
    }
}

/// The actions of the events, each once, in the order they first occur.
pub open spec fn distinct_actions(w: Seq<AuditEvent>) -> Seq<Seq<char>>
    decreases w.len(),
{
    if w.len() == 0 {
        Seq::empty()
    } else if distinct_actions(w.drop_last()).contains(w.last().action@) {
        distinct_actions(w.drop_last())
    } else {
        distinct_actions(w.drop_last()).push(w.last().action@)
    }
}

/// Each action of the events with the number of events that record it.
pub open spec fn tally(w: Seq<AuditEvent>) -> Seq<(Seq<char>, nat)> {
    distinct_actions(w).map_values(|a: Seq<char>| (a, action_count(w, a)))
}

/// The order of the bar chart: the larger count first, and between equal
/// counts the action that comes first as a string.
pub open spec fn ranks_before(x: (Seq<char>, nat), y: (Seq<char>, nat)) -> bool {
    x.1 > y.1 || (x.1 == y.1 && lex_less(x.0, y.0))
}

/// The first position of `s` whose entry `x` ranks before, or its length.
pub open spec fn first_ranked_after(s: Seq<(Seq<char>, nat)>, x: (Seq<char>, nat)) -> int
    decreases s.len(),
{
    if s.len() == 0 || ranks_before(x, s[0]) {
        0
    } else {
        1 + first_ranked_after(s.drop_first(), x)
    }
}

/// The entries in the order of the bar chart.
pub open spec fn ranked(s: Seq<(Seq<char>, nat)>) -> Seq<(Seq<char>, nat)>
    decreases s.len(),
{
    if s.len() == 0 {
        Seq::empty()
    } else {
        let rest = ranked(s.drop_last());
        rest.insert(first_ranked_after(rest, s.last()), s.last())
    }
}

/// The bar chart of the window: its ten most frequent actions with their
/// counts, in the order of `ranks_before`.
pub open spec fn spec_top_actions(w: Seq<AuditEvent>) -> Seq<(Seq<char>, nat)> {
    first_n(ranked(tally(w)), TOP_ACTIONS as nat)
}

/// The timeline of the window: each event's time, and whether it is a
/// refusal.
pub open spec fn timeline_of(w: Seq<AuditEvent>) -> Seq<(u64, bool)> {
    w.map_values(|e: AuditEvent| (e.ts, is_denial(e)))
}

/// What the analytics panel draws from the feed.
pub struct AuditAnalytics {
    /// The most frequent actions and their counts, most frequent first.
    pub top_actions: Vec<(String, usize)>,
    /// How many events fall in each hour of the day, from hour 0.
    pub hour_bins: Vec<usize>,
    /// Each event's time and whether it is a refusal.
    pub timeline: Vec<(u64, bool)>,
}

pub open spec fn entry_views(v: Seq<(String, usize)>) -> Seq<(Seq<char>, nat)> {
    v.map_values(|e: (String, usize)| (e.0@, e.1 as nat))
}

proof fn lemma_window_step(s: Seq<AuditEvent>, i: int, min_ts: u64)
    requires
        0 <= i < s.len(),
    ensures
        ({
            let w = first_n(since(s.subrange(0, i), min_ts), ANALYTICS_EVENTS as nat);
            first_n(since(s.subrange(0, i + 1), min_ts), ANALYTICS_EVENTS as nat) == if s[i].ts
                >= min_ts && w.len() < ANALYTICS_EVENTS {
                w.push(s[i])
            } else {
                w
            }
        }),
{
    let sub = s.subrange(0, i + 1);
    assert(sub.drop_last() =~= s.subrange(0, i));
    assert(sub.last() == s[i]);
    let x = since(s.subrange(0, i), min_ts);
    if s[i].ts >= min_ts && x.len() >= ANALYTICS_EVENTS {
        assert(x.push(s[i]).take(ANALYTICS_EVENTS as int) =~= first_n(x, ANALYTICS_EVENTS as nat));
    }
}

proof fn lemma_counts_push(w: Seq<AuditEvent>, e: AuditEvent)
    ensures
        forall|h: int| #[trigger]
            hour_count(w.push(e), h) == hour_count(w, h) + if hour_of(e.ts) == h {
                1nat
            } else {
                0nat
            },
        forall|a: Seq<char>| #[trigger]
            action_count(w.push(e), a) == action_count(w, a) + if e.action@ == a {
                1nat
            } else {
                0nat
            },
        distinct_actions(w.push(e)) == if distinct_actions(w).contains(e.action@) {
            distinct_actions(w)
        } else {
            distinct_actions(w).push(e.action@)
        },
        timeline_of(w.push(e)) == timeline_of(w).push((e.ts, is_denial(e))),
{
    assert(w.push(e).drop_last() =~= w);
    assert(timeline_of(w.push(e)) =~= timeline_of(w).push((e.ts, is_denial(e))));
}

proof fn lemma_action_count_bound(w: Seq<AuditEvent>, a: Seq<char>)
    ensures
        action_count(w, a) <= w.len(),
    decreases w.len(),
{
    if w.len() > 0 {
        lemma_action_count_bound(w.drop_last(), a);
    }
}

proof fn lemma_hour_count_bound(w: Seq<AuditEvent>, h: int)
    ensures
        hour_count(w, h) <= w.len(),
    decreases w.len(),
{
    if w.len() > 0 {
        lemma_hour_count_bound(w.drop_last(), h);
    }
}

proof fn lemma_distinct_actions_unique(w: Seq<AuditEvent>)
    ensures
        distinct_actions(w).no_duplicates(),
        forall|k: int|
            0 <= k < distinct_actions(w).len() ==> action_count(w, #[trigger] distinct_actions(w)[k])
                >= 1,
        forall|a: Seq<char>| !distinct_actions(w).contains(a) ==> #[trigger] action_count(w, a) == 0,
    decreases w.len(),
{
    if w.len() > 0 {
        let rest = w.drop_last();
        lemma_distinct_actions_unique(rest);
        assert(w =~= rest.push(w.last()));
        lemma_counts_push(rest, w.last());
        let dr = distinct_actions(rest);
        assert forall|a: Seq<char>| !distinct_actions(w).contains(a) implies #[trigger] action_count(
            w,
            a,
        ) == 0 by {
            if dr.contains(a) {
                let k = choose|k: int| 0 <= k < dr.len() && dr[k] == a;
                if dr.contains(w.last().action@) {
                    assert(distinct_actions(w)[k] == a);
                } else {
                    assert(distinct_actions(w)[k] == a);
                }
            }
            if w.last().action@ == a {
                if !dr.contains(a) {
                    assert(distinct_actions(w)[dr.len() as int] == a);
                }
            }
        }
    }
}

/// Twenty-four empty hour bins.
fn zero_bins() -> (r: Vec<usize>)
    ensures
        r@.len() == 24,
        forall|h: int| 0 <= h < 24 ==> r@[h] == 0,
{
    let mut v: Vec<usize> = Vec::new();
    let mut k: usize = 0;
    while k < 24
        invariant
            k <= 24,
            v@.len() == k,
            forall|h: int| 0 <= h < k ==> v@[h] == 0,
        decreases 24 - k,
    {
        v.push(0);
        k = k + 1;
    }
    v
}

/// The first position of `names` that holds `a`, if any.
fn position_of(names: &Vec<String>, a: &String) -> (r: Option<usize>)
    ensures
        match r {
            Some(k) => k < names@.len() && names@[k as int]@ == a@,
            None => forall|k: int| 0 <= k < names@.len() ==> names@[k]@ != a@,
        },
{
    let mut k: usize = 0;
    while k < names.len()
        invariant
            k <= names@.len(),
            forall|j: int| 0 <= j < k ==> names@[j]@ != a@,
        decreases names@.len() - k,
    {
        if str_eq(names[k].as_str(), a.as_str()) {
            return Some(k);
        }
        k = k + 1;
    }
    None
}

/// Whether entry `x` ranks before entry `y`.
fn entry_ranks_before(x: &(String, usize), y: &(String, usize)) -> (r: bool)
    ensures
        r == ranks_before((x.0@, x.1 as nat), (y.0@, y.1 as nat)),
{
    x.1 > y.1 || (x.1 == y.1 && str_lex_less(x.0.as_str(), y.0.as_str()))
}

/// Orders the tally as the bar chart does.
fn rank_entries(items: Vec<(String, usize)>) -> (r: Vec<(String, usize)>)
    ensures
        entry_views(r@) == ranked(entry_views(items@)),
{
    let ghost orig = entry_views(items@);
    let n = items.len();
    let mut rest = items;
    let mut out: Vec<(String, usize)> = Vec::new();
    let mut k: usize = 0;
    assert(orig.subrange(0, 0) =~= Seq::<(Seq<char>, nat)>::empty());
    while k < n
        invariant
            n == orig.len(),
            k <= n,
            rest@.len() == n - k,
            entry_views(rest@) =~= orig.subrange(k as int, n as int),
            entry_views(out@) == ranked(orig.subrange(0, k as int)),
        decreases n - k,
    {
        proof {
            assert(entry_views(rest@)[0] == orig[k as int]);
        }
        let ghost r0 = rest@;
        let x = rest.remove(0);
        proof {
            assert(rest@ =~= r0.subrange(1, r0.len() as int));
            assert forall|j: int| 0 <= j < rest@.len() implies #[trigger] entry_views(rest@)[j]
                == orig.subrange(k + 1, n as int)[j] by {
                assert(rest@[j] == r0[j + 1]);
                assert(entry_views(r0)[j + 1] == orig.subrange(k as int, n as int)[j + 1]);
            }
            assert(entry_views(rest@) =~= orig.subrange(k + 1, n as int));
        }
        let ghost xv = (x.0@, x.1 as nat);
        let mut j: usize = 0;
        assert(entry_views(out@).subrange(0, out@.len() as int) =~= entry_views(out@));
        while j < out.len() && !entry_ranks_before(&x, &out[j])
            invariant
                j <= out@.len(),
                xv == (x.0@, x.1 as nat),
                first_ranked_after(entry_views(out@), xv) == j + first_ranked_after(
                    entry_views(out@).subrange(j as int, out@.len() as int),
                    xv,
                ),
            decreases out@.len() - j,
        {
            let ghost tail = entry_views(out@).subrange(j as int, out@.len() as int);
            assert(tail.drop_first() =~= entry_views(out@).subrange(j + 1, out@.len() as int));
            assert(tail[0] == entry_views(out@)[j as int]);
            j = j + 1;
        }
        proof {
            let tail = entry_views(out@).subrange(j as int, out@.len() as int);
            if j < out@.len() {
                assert(tail[0] == entry_views(out@)[j as int]);
            }
            assert(orig.subrange(0, k + 1).drop_last() =~= orig.subrange(0, k as int));
            assert(orig.subrange(0, k + 1).last() == xv);
        }
        let ghost before = out@;
        out.insert(j, x);
        proof {
            assert(entry_views(out@) =~= entry_views(before).insert(j as int, xv));
        }
        k = k + 1;
    }
    proof {
        assert(orig.subrange(0, n as int) =~= orig);
    }
    out
}

/// The analytics of the feed over the events at or after `min_ts`: the
/// first 480 of them are looked at.
pub fn audit_analytics(events: &Vec<AuditEvent>, min_ts: u64) -> (r: AuditAnalytics)
    ensures
        entry_views(r.top_actions@) == spec_top_actions(analytics_window(events@, min_ts)),
        r.hour_bins@.len() == 24,
        forall|h: int|
            0 <= h < 24 ==> r.hour_bins@[h] == hour_count(analytics_window(events@, min_ts), h),
        r.timeline@ == timeline_of(analytics_window(events@, min_ts)),
{
    let mut bins = zero_bins();
    let mut timeline: Vec<(u64, bool)> = Vec::new();
    let mut names: Vec<String> = Vec::new();
    let mut counts: Vec<usize> = Vec::new();
    let mut taken: usize = 0;
    let mut i: usize = 0;
    let ghost mut w: Seq<AuditEvent> = Seq::empty();
    proof {
        assert(events@.subrange(0, 0) =~= Seq::<AuditEvent>::empty());
        assert forall|h: int| 0 <= h < 24 implies bins@[h] == hour_count(w, h) by {}
        assert(timeline_of(w) =~= Seq::<(u64, bool)>::empty());
    }
    while i < events.len()
        invariant
            i <= events@.len(),
            w == first_n(since(events@.subrange(0, i as int), min_ts), ANALYTICS_EVENTS as nat),
            taken == w.len(),
            taken <= ANALYTICS_EVENTS,
            bins@.len() == 24,
            forall|h: int| 0 <= h < 24 ==> bins@[h] == hour_count(w, h),
            timeline@ == timeline_of(w),
            names@.len() == counts@.len(),
            string_views(names@) == distinct_actions(w),
            forall|k: int|
                0 <= k < counts@.len() ==> counts@[k] == action_count(w, #[trigger] names@[k]@),
        decreases events@.len() - i,
    {
        proof {
            lemma_window_step(events@, i as int, min_ts);
        }
        let e = &events[i];
        if e.ts >= min_ts && taken < ANALYTICS_EVENTS {
            let ghost w0 = w;
            proof {
                lemma_counts_push(w0, *e);
                lemma_distinct_actions_unique(w0);
                w = w0.push(*e);
            }
            let h: usize = ((e.ts / 3600) % 24) as usize;
            let b = bins[h];
            proof {
                assert(b == hour_count(w0, h as int));
                lemma_hour_count_bound(w0, h as int);
            }
            bins.set(h, b + 1);
            let denied = event_is_denial(e);
            timeline.push((e.ts, denied));
            match position_of(&names, &e.action) {
                Some(k) => {
                    let c = counts[k];
                    proof {
                        assert(string_views(names@)[k as int] == names@[k as int]@);
                        assert(c == action_count(w0, names@[k as int]@));
                        lemma_action_count_bound(w0, names@[k as int]@);
                    }
                    counts.set(k, c + 1);
                    proof {
                        assert forall|j: int| 0 <= j < counts@.len() implies counts@[j]
                            == action_count(w, #[trigger] names@[j]@) by {
                            assert(string_views(names@)[j] == names@[j]@);
                            assert(action_count(w, names@[j]@) == action_count(w0, names@[j]@)
                                + if e.action@ == names@[j]@ {
                                1nat
                            } else {
                                0nat
                            });
                            if j != k {
                                assert(distinct_actions(w0)[j] != distinct_actions(w0)[k as int]);
                            } else {
                                assert(counts@[j] == c + 1);
                            }
                        }
                        assert(distinct_actions(w0).contains(e.action@));
                    }
                },
                None => {
                    proof {
                        assert forall|j: int| 0 <= j < distinct_actions(w0).len() implies distinct_actions(w0)[j] != e.action@ by {
                            assert(string_views(names@)[j] == names@[j]@);
                        }
                    }
                    let a = e.action.clone();
                    names.push(a);
                    counts.push(1);
                    proof {
                        assert(string_views(names@) =~= distinct_actions(w));
                        assert forall|j: int| 0 <= j < counts@.len() implies counts@[j]
                            == action_count(w, #[trigger] names@[j]@) by {
                            assert(string_views(names@)[j] == names@[j]@);
                            assert(action_count(w, names@[j]@) == action_count(w0, names@[j]@)
                                + if e.action@ == names@[j]@ {
                                1nat
                            } else {
                                0nat
                            });
                            if j < counts@.len() - 1 {
                                assert(distinct_actions(w0)[j] != e.action@);
                            } else {
                                assert(!distinct_actions(w0).contains(e.action@));
                                assert(action_count(w0, e.action@) == 0);
                            }
                        }
                    }
                },
            }
            taken = taken + 1;
            proof {
                assert forall|hh: int| 0 <= hh < 24 implies bins@[hh] == hour_count(w, hh) by {}
            }
        }
        i = i + 1;
    }
    proof {
        assert(events@.subrange(0, i as int) =~= events@);
    }
    let mut entries: Vec<(String, usize)> = Vec::new();
    let mut k: usize = 0;
    while k < names.len()
        invariant
            k <= names@.len(),
            names@.len() == counts@.len(),
            string_views(names@) == distinct_actions(w),
            forall|j: int|
                0 <= j < counts@.len() ==> counts@[j] == action_count(w, #[trigger] names@[j]@),
            entries@.len() == k,
            entry_views(entries@) == tally(w).take(k as int),
        decreases names@.len() - k,
    {
        let name = names[k].clone();
        let c = counts[k];
        entries.push((name, c));
        proof {
            assert(string_views(names@)[k as int] == names@[k as int]@);
            assert(counts@[k as int] == action_count(w, names@[k as int]@));
            assert(tally(w)[k as int] == (distinct_actions(w)[k as int], action_count(
                w,
                distinct_actions(w)[k as int],
            )));
            assert(entry_views(entries@)[k as int] == (name@, c as nat));
            assert(entry_views(entries@) =~= tally(w).take(k + 1));
        }
        k = k + 1;
    }
    proof {
        assert(tally(w).take(k as int) =~= tally(w));
    }
    let mut top = rank_entries(entries);
    top.truncate(TOP_ACTIONS);
    proof {
        assert(entry_views(top@) =~= spec_top_actions(w));
    }
    AuditAnalytics { top_actions: top, hour_bins: bins, timeline }
}

proof fn lemma_first_ranked_after(s: Seq<(Seq<char>, nat)>, x: (Seq<char>, nat))
    ensures
        0 <= first_ranked_after(s, x) <= s.len(),
        forall|k: int| 0 <= k < first_ranked_after(s, x) ==> !ranks_before(x, #[trigger] s[k]),
        first_ranked_after(s, x) < s.len() ==> ranks_before(x, s[first_ranked_after(s, x)]),
    decreases s.len(),
{
    if s.len() > 0 && !ranks_before(x, s[0]) {
        lemma_first_ranked_after(s.drop_first(), x);
        assert forall|k: int| 0 <= k < first_ranked_after(s, x) implies !ranks_before(
            x,
            #[trigger] s[k],
        ) by {
            if k > 0 {
                assert(s[k] == s.drop_first()[k - 1]);
            }
        }
    }
}

proof fn lemma_ranks_trans(x: (Seq<char>, nat), y: (Seq<char>, nat), z: (Seq<char>, nat))
    requires
        ranks_before(x, y),
        ranks_before(y, z),
    ensures
        ranks_before(x, z),
{
    if x.1 == y.1 && y.1 == z.1 {
        lemma_lex_trans(x.0, y.0, z.0);
    }
}

proof fn lemma_ranks_total(x: (Seq<char>, nat), y: (Seq<char>, nat))
    requires
        x.0 != y.0,
    ensures
        ranks_before(x, y) || ranks_before(y, x),
{
    lemma_lex_total(x.0, y.0);
}

/// No two entries name the same action.
pub open spec fn distinct_names(s: Seq<(Seq<char>, nat)>) -> bool {
    forall|i: int, j: int| 0 <= i < j < s.len() ==> s[i].0 != s[j].0
}

/// Each entry ranks before every later one.
pub open spec fn strictly_ranked(s: Seq<(Seq<char>, nat)>) -> bool {
    forall|i: int, j: int| 0 <= i < j < s.len() ==> ranks_before(s[i], s[j])
}

proof fn lemma_ranked(s: Seq<(Seq<char>, nat)>)
    requires
        distinct_names(s),
    ensures
        ranked(s).len() == s.len(),
        strictly_ranked(ranked(s)),
        ranked(s).to_multiset() =~= s.to_multiset(),
    decreases s.len(),
{
    broadcast use vstd::seq_lib::group_to_multiset_ensures;
    broadcast use vstd::multiset::group_multiset_axioms;

    if s.len() > 0 {
        let front = s.drop_last();
        let rest = ranked(front);
        lemma_ranked(front);
        let x = s.last();
        let j = first_ranked_after(rest, x);
        lemma_first_ranked_after(rest, x);
        let r = rest.insert(j, x);
        assert forall|k: int| 0 <= k < rest.len() implies #[trigger] rest[k].0 != x.0 by {
            assert(rest.contains(rest[k]));
            assert(rest.to_multiset().count(rest[k]) > 0);
            assert(front.contains(rest[k]));
            let i = choose|i: int| 0 <= i < front.len() && front[i] == rest[k];
            assert(s[i] == front[i]);
        }
        assert forall|a: int, b: int| 0 <= a < b < r.len() implies ranks_before(r[a], r[b]) by {
            if b < j {
            } else if b == j {
                assert(!ranks_before(x, rest[a]));
                lemma_ranks_total(rest[a], x);
            } else if a < j {
                assert(r[b] == rest[b - 1]);
                if b - 1 > a {
                }
            } else if a == j {
                assert(r[b] == rest[b - 1]);
                if b - 1 > j {
                    lemma_ranks_trans(x, rest[j], rest[b - 1]);
                }
            } else {
                assert(r[a] == rest[a - 1]);
                assert(r[b] == rest[b - 1]);
            }
        }
        assert(r.remove(j) =~= rest);
        assert(r[j] == x);
        r.to_multiset_ensures();
        assert(front.push(x) =~= s);
        front.to_multiset_ensures();
        assert(r.to_multiset() =~= s.to_multiset());
    }
}

/// The bar chart names each action of the window once, with the number of
/// its events; it runs from the most frequent action down (equal counts in
/// the order of the actions' names); and it shows the first ten of that
/// order, so no action left out ranks before one that is shown.
pub proof fn law_bar_chart_ranks_every_action(w: Seq<AuditEvent>)
    ensures
        ranked(tally(w)).to_multiset() =~= tally(w).to_multiset(),
        strictly_ranked(ranked(tally(w))),
        spec_top_actions(w) == first_n(ranked(tally(w)), TOP_ACTIONS as nat),
        forall|k: int|
            0 <= k < tally(w).len() ==> #[trigger] tally(w)[k].1 == action_count(w, tally(w)[k].0)
                && action_count(w, tally(w)[k].0) >= 1,
        forall|e: AuditEvent| #[trigger] w.contains(e) ==> distinct_actions(w).contains(e.action@),
{
    lemma_distinct_actions_unique(w);
    let t = tally(w);
    assert forall|i: int, j: int| 0 <= i < j < t.len() implies t[i].0 != t[j].0 by {
        assert(t[i].0 == distinct_actions(w)[i]);
        assert(t[j].0 == distinct_actions(w)[j]);
    }
    lemma_ranked(t);
    assert forall|e: AuditEvent| #[trigger] w.contains(e) implies distinct_actions(w).contains(
        e.action@,
    ) by {
        if !distinct_actions(w).contains(e.action@) {
            lemma_action_count_positive(w, e);
        }
    }
}

proof fn lemma_action_count_positive(w: Seq<AuditEvent>, e: AuditEvent)
    requires
        w.contains(e),
    ensures
        action_count(w, e.action@) >= 1,
    decreases w.len(),
{
    if w.last() != e {
        let i = choose|i: int| 0 <= i < w.len() && w[i] == e;
        assert(w.drop_last()[i] == e);
        lemma_action_count_positive(w.drop_last(), e);
    }
}

} // verus!
