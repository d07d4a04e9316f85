//! The process table: which processes a filter keeps, the orders it can be
//! sorted in, and the text around it. A process's CPU share, a float, stays
//! with the caller, which sorts by it itself.
use vstd::prelude::*;

use crate::text::{ascii_lower, contains_seq, contains_vec, decimal, lower_str, str_eq, u64_to_decimal};

verus! {

broadcast use vstd::string::group_string_axioms;

/// What the table knows of a process besides its CPU share.
#[derive(Debug, Clone)]
pub struct ProcessRow {
    pub pid: u32,
    pub name: String,
    pub memory_bytes: u64,
    pub threads: u32,
    pub cmdline: String,
}

/// The orders of the process table.
#[derive(Debug, Clone, Copy, PartialEq, Eq, Structural)]
pub enum ProcessSort {
    CpuDesc,
    RssDesc,
    PidAsc,
    ThreadsDesc,
}

impl ProcessSort {
    /// The order that `show processes --sort <key>` asks for: `rss`, `pid`
    /// and `threads` name theirs; anything else, or nothing, sorts by CPU.
    pub open spec fn spec_from_key(key: Option<Seq<char>>) -> ProcessSort {
        match key {
            Some(k) => if k == "rss"@ {
                ProcessSort::RssDesc
            } else if k == "pid"@ {
                ProcessSort::PidAsc
            } else if k == "threads"@ {
                ProcessSort::ThreadsDesc
            } else {
                ProcessSort::CpuDesc
            },
            None => ProcessSort::CpuDesc,
        }
    }

    pub fn from_key(key: Option<&str>) -> (r: ProcessSort)
        ensures
            r == ProcessSort::spec_from_key(crate::observability::opt_view(key)),
    {
        match key {
            Some(k) => if str_eq(k, "rss") {
                ProcessSort::RssDesc
            } else if str_eq(k, "pid") {
                ProcessSort::PidAsc
            } else if str_eq(k, "threads") {
                ProcessSort::ThreadsDesc
            } else {
                ProcessSort::CpuDesc
            },
            None => ProcessSort::CpuDesc,
        }
    }
}

// ---------------------------------------------------------------------------
// The filter
// ---------------------------------------------------------------------------

/// A process passes a filter when the filter is empty, or occurs, ASCII
/// case ignored, in its name, its id or its command line.
pub open spec fn process_passes(p: ProcessRow, filter: Seq<char>) -> bool {
    let q = ascii_lower(filter);
    filter.len() == 0 || contains_seq(ascii_lower(p.name@), q) || contains_seq(
        decimal(p.pid as nat),
        q,
    ) || contains_seq(ascii_lower(p.cmdline@), q)
}

pub fn row_passes(p: &ProcessRow, filter: &str) -> (r: bool)
    ensures
        r == process_passes(*p, filter@),
{
    if filter.unicode_len() == 0 {
        return true;
    }
    let q = lower_str(filter);
    let name = lower_str(p.name.as_str());
    if contains_vec(&name, &q) {
        return true;
    }
    let pid = u64_to_decimal(p.pid as u64);
    let pid_chars = lower_str(pid.as_str());
    proof {
        lemma_decimal_is_lower(p.pid as nat);
    }
    if contains_vec(&pid_chars, &q) {
        return true;
    }
    let cmd = lower_str(p.cmdline.as_str());
    contains_vec(&cmd, &q)
}

proof fn lemma_decimal_is_lower(n: nat)
    ensures
        ascii_lower(decimal(n)) == decimal(n),
    decreases n,
{
    if n >= 10 {
        lemma_decimal_is_lower(n / 10);
        assert(ascii_lower(decimal(n)) =~= ascii_lower(decimal(n / 10)).push(
            crate::text::lower_char(crate::text::digit_char(n % 10)),
        ));
    }
    assert(ascii_lower(decimal(n)) =~= decimal(n));
}

/// The positions of the processes that pass a filter, in order.
pub open spec fn passing(s: Seq<ProcessRow>, filter: Seq<char>) -> Seq<usize>
    decreases s.len(),
{
    if s.len() == 0 {
        Seq::empty()
    } else if process_passes(s.last(), filter) {
        passing(s.drop_last(), filter).push((s.len() - 1) as usize)
    } else {
        passing(s.drop_last(), filter)
    }
}

pub fn filter_processes(rows: &Vec<ProcessRow>, filter: &str) -> (r: Vec<usize>)
    ensures
        r@ == passing(rows@, filter@),
{
    let mut out: Vec<usize> = Vec::new();
    let mut i: usize = 0;
    assert(rows@.subrange(0, 0) =~= Seq::<ProcessRow>::empty());
    while i < rows.len()
        invariant
            i <= rows@.len(),
            out@ == passing(rows@.subrange(0, i as int), filter@),
        decreases rows@.len() - i,
    {
        proof {
            let sub = rows@.subrange(0, i + 1);
            assert(sub.drop_last() =~= rows@.subrange(0, i as int));
            assert(sub.last() == rows@[i as int]);
        }
        if row_passes(&rows[i], filter) {
            out.push(i);
        }
        i = i + 1;
    }
    assert(rows@.subrange(0, i as int) =~= rows@);
    out
}

// ---------------------------------------------------------------------------
// The integer orders
// ---------------------------------------------------------------------------

/// The key a process is sorted by, smallest first: its memory or thread
/// count negated for the descending orders, its id for the ascending one.
pub open spec fn sort_key(p: ProcessRow, s: ProcessSort) -> int {
    match s {
        ProcessSort::RssDesc => -(p.memory_bytes as int),
        ProcessSort::PidAsc => p.pid as int,
        ProcessSort::ThreadsDesc => -(p.threads as int),
        ProcessSort::CpuDesc => 0,
    }
}

/// The first position of `s` whose process has a key above `k`.
pub open spec fn slot(s: Seq<usize>, rows: Seq<ProcessRow>, mode: ProcessSort, k: int) -> int
    decreases s.len(),
{
    if s.len() == 0 || sort_key(rows[s[0] as int], mode) > k {
        0
    } else {
        1 + slot(s.drop_first(), rows, mode, k)
    }
}

/// The positions `idx` sorted stably by key: each is placed after those
/// with a key no larger, so equal keys keep their order.
pub open spec fn stable_sorted(idx: Seq<usize>, rows: Seq<ProcessRow>, mode: ProcessSort) -> Seq<
    usize,
>
    decreases idx.len(),
{
    if idx.len() == 0 {
        Seq::empty()
    } else {
        let rest = stable_sorted(idx.drop_last(), rows, mode);
        rest.insert(slot(rest, rows, mode, sort_key(rows[idx.last() as int], mode)), idx.last())
    }
}

fn row_key_le(a: &ProcessRow, b: &ProcessRow, mode: ProcessSort) -> (r: bool)
    ensures
        r == (sort_key(*a, mode) <= sort_key(*b, mode)),
{
    match mode {
        ProcessSort::RssDesc => a.memory_bytes >= b.memory_bytes,
        ProcessSort::PidAsc => a.pid <= b.pid,
        ProcessSort::ThreadsDesc => a.threads >= b.threads,
        ProcessSort::CpuDesc => true,
    }
}

/// The positions `idx` of `rows` in the order `mode`, stably; `None` for
/// the CPU order, which the caller applies with the CPU shares it holds.
pub fn order_processes(rows: &Vec<ProcessRow>, idx: Vec<usize>, mode: ProcessSort) -> (r: Option<
    Vec<usize>,
>)
    requires
        forall|k: int| 0 <= k < idx@.len() ==> idx@[k] < rows@.len(),
    ensures
        match r {
            Some(v) => mode != ProcessSort::CpuDesc && v@ == stable_sorted(idx@, rows@, mode),
            None => mode == ProcessSort::CpuDesc,
        },
{
    if mode == ProcessSort::CpuDesc {
        return None;
    }
    let ghost orig = idx@;
    let n = idx.len();
    let mut out: Vec<usize> = Vec::new();
    let mut k: usize = 0;
    assert(orig.subrange(0, 0) =~= Seq::<usize>::empty());
    while k < n
        invariant
            n == orig.len(),
            orig == idx@,
            k <= n,
            forall|q: int| 0 <= q < orig.len() ==> orig[q] < rows@.len(),
            out@ == stable_sorted(orig.subrange(0, k as int), rows@, mode),
            out@.to_multiset() =~= orig.subrange(0, k as int).to_multiset(),
        decreases n - k,
    {
        let x = idx[k];
        let mut j: usize = 0;
        proof {
            lemma_sorted_elements(orig.subrange(0, k as int), rows@, mode);
        }
        assert(out@.subrange(0, out@.len() as int) =~= out@);
        while j < out.len() && row_key_le(&rows[out[j]], &rows[x], mode)
            invariant
                j <= out@.len(),
                x < rows@.len(),
                forall|q: int| 0 <= q < out@.len() ==> out@[q] < rows@.len(),
                slot(out@, rows@, mode, sort_key(rows@[x as int], mode)) == j + slot(
                    out@.subrange(j as int, out@.len() as int),
                    rows@,
                    mode,
                    sort_key(rows@[x as int], mode),
                ),
            decreases out@.len() - j,
        {
            let ghost tail = out@.subrange(j as int, out@.len() as int);
            assert(tail.drop_first() =~= out@.subrange(j + 1, out@.len() as int));
            assert(tail[0] == out@[j as int]);
            j = j + 1;
        }
        proof {
            let tail = out@.subrange(j as int, out@.len() as int);
            if j < out@.len() {
                assert(tail[0] == out@[j as int]);
            }
            assert(orig.subrange(0, k + 1).drop_last() =~= orig.subrange(0, k as int));
            assert(orig.subrange(0, k + 1).last() == x);
        }
        let ghost before = out@;
        out.insert(j, x);
        proof {
            broadcast use vstd::seq_lib::group_to_multiset_ensures;

            assert(out@.remove(j as int) =~= before);
            assert(orig.subrange(0, k as int).push(x) =~= orig.subrange(0, k + 1));
            out@.to_multiset_ensures();
            before.to_multiset_ensures();
            orig.subrange(0, k as int).to_multiset_ensures();
            assert(out@.to_multiset() =~= orig.subrange(0, k + 1).to_multiset());
        }
        k = k + 1;
    }
    assert(orig.subrange(0, n as int) =~= orig);
    Some(out)
}

proof fn lemma_sorted_elements(idx: Seq<usize>, rows: Seq<ProcessRow>, mode: ProcessSort)
    requires
        forall|q: int| 0 <= q < idx.len() ==> idx[q] < rows.len(),
    ensures
        forall|q: int|
            0 <= q < stable_sorted(idx, rows, mode).len() ==> #[trigger] stable_sorted(
                idx,
                rows,
                mode,
            )[q] < rows.len(),
        stable_sorted(idx, rows, mode).len() == idx.len(),
    decreases idx.len(),
{
    if idx.len() > 0 {
        lemma_sorted_elements(idx.drop_last(), rows, mode);
        let rest = stable_sorted(idx.drop_last(), rows, mode);
        let x = idx.last();
        lemma_slot(rest, rows, mode, sort_key(rows[x as int], mode));
        let r = stable_sorted(idx, rows, mode);
        let j = slot(rest, rows, mode, sort_key(rows[x as int], mode));
        assert forall|q: int| 0 <= q < r.len() implies #[trigger] r[q] < rows.len() by {
            if q < j {
                assert(r[q] == rest[q]);
            } else if q > j {
                assert(r[q] == rest[q - 1]);
            }
        }
    }
}

proof fn lemma_slot(s: Seq<usize>, rows: Seq<ProcessRow>, mode: ProcessSort, k: int)
    ensures
        0 <= slot(s, rows, mode, k) <= s.len(),
        forall|q: int|
            0 <= q < slot(s, rows, mode, k) ==> sort_key(rows[#[trigger] s[q] as int], mode) <= k,
        slot(s, rows, mode, k) < s.len() ==> sort_key(rows[s[slot(s, rows, mode, k)] as int], mode)
            > k,
    decreases s.len(),
{
    if s.len() > 0 && sort_key(rows[s[0] as int], mode) <= k {
        lemma_slot(s.drop_first(), rows, mode, k);
        assert forall|q: int| 0 <= q < slot(s, rows, mode, k) implies sort_key(
            rows[#[trigger] s[q] as int],
            mode,
        ) <= k by {
            if q > 0 {
                assert(s[q] == s.drop_first()[q - 1]);
            }
        }
    }
}

/// A sorted table runs in the order of its key, and holds exactly the
/// positions it was given.
pub proof fn law_process_order_is_sorted(idx: Seq<usize>, rows: Seq<ProcessRow>, mode: ProcessSort)
    requires
        forall|q: int| 0 <= q < idx.len() ==> idx[q] < rows.len(),
    ensures
        forall|a: int, b: int|
            0 <= a < b < stable_sorted(idx, rows, mode).len() ==> sort_key(
                rows[stable_sorted(idx, rows, mode)[a] as int],
                mode,
            ) <= sort_key(rows[stable_sorted(idx, rows, mode)[b] as int], mode),
        stable_sorted(idx, rows, mode).to_multiset() =~= idx.to_multiset(),
    decreases idx.len(),
{
    broadcast use vstd::seq_lib::group_to_multiset_ensures;

    if idx.len() > 0 {
        let front = idx.drop_last();
        law_process_order_is_sorted(front, rows, mode);
        let rest = stable_sorted(front, rows, mode);
        let x = idx.last();
        let kx = sort_key(rows[x as int], mode);
        let j = slot(rest, rows, mode, kx);
        lemma_slot(rest, rows, mode, kx);
        let r = rest.insert(j, x);
        assert forall|a: int, b: int| 0 <= a < b < r.len() implies sort_key(
            rows[r[a] as int],
            mode,
        ) <= sort_key(rows[r[b] as int], mode) by {
            if b < j {
            } else if b == j {
            } else if a < j {
                assert(r[b] == rest[b - 1]);
                if j < rest.len() {
                    if b - 1 > j {
                        assert(sort_key(rows[rest[j] as int], mode) <= sort_key(
                            rows[rest[b - 1] as int],
                            mode,
                        ));
                    }
                }
            } else if a == j {
                assert(r[b] == rest[b - 1]);
                if b - 1 > j {
                    assert(sort_key(rows[rest[j] as int], mode) <= sort_key(
                        rows[rest[b - 1] as int],
                        mode,
                    ));
                }
            } else {
                assert(r[a] == rest[a - 1]);
                assert(r[b] == rest[b - 1]);
            }
        }
        assert(r.remove(j) =~= rest);
        r.to_multiset_ensures();
        assert(front.push(x) =~= idx);
        front.to_multiset_ensures();
        assert(r.to_multiset() =~= idx.to_multiset());
    }
}

// ---------------------------------------------------------------------------
// Text
// ---------------------------------------------------------------------------

/// The heading of `show processes`: how many rows at most, and the order's
/// key as it was asked for (`cpu` when none was).
pub open spec fn process_header_text(limit: u64, key: Option<Seq<char>>) -> Seq<char> {
    "Processes (top "@ + decimal(limit as nat) + " by "@ + match key {
        Some(k) => k,
        None => "cpu"@,
    } + "):\n  PID      CPU%    RSS          Name\n"@
}

pub fn process_header(limit: u64, key: Option<&str>) -> (r: String)
    ensures
        r@ == process_header_text(limit, crate::observability::opt_view(key)),
{
    let mut s = "Processes (top ".to_owned();
    let d = u64_to_decimal(limit);
    s.append(d.as_str());
    s.append(" by ");
    match key {
        Some(k) => s.append(k),
        None => s.append("cpu"),
    }
    s.append("):\n  PID      CPU%    RSS          Name\n");
    s
}

/// The label of a process in the top-process charts: `<name> (<pid>)`.
pub open spec fn bar_label_text(p: ProcessRow) -> Seq<char> {
    p.name@ + " ("@ + decimal(p.pid as nat) + ")"@
}

pub fn bar_label(p: &ProcessRow) -> (r: String)
    ensures
        r@ == bar_label_text(*p),
{
    let mut s = p.name.clone();
    s.append(" (");
    let d = u64_to_decimal(p.pid as u64);
    s.append(d.as_str());
    s.append(")");
    s
}

} // verus!
