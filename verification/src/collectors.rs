//! The bookkeeping of the system collectors: the counters they keep from
//! one round to the next, the deltas they derive, and the ordering of
//! what they report. Reading `/proc` and `/sys` and dividing by the
//! elapsed time is left to the caller.
use vstd::prelude::*;

use std::collections::HashMap;
use std::time::Instant;

verus! {

broadcast use {vstd::string::group_string_axioms, vstd::std_specs::hash::group_hash_axioms};

// ---------------------------------------------------------------------------
// Saturating arithmetic
// ---------------------------------------------------------------------------

pub open spec fn sat_add(a: u64, b: u64) -> u64 {
    if a + b > u64::MAX {
        u64::MAX
    } else {
        (a + b) as u64
    }
}

pub open spec fn sat_sub(a: u64, b: u64) -> u64 {
    if a >= b {
        (a - b) as u64
    } else {
        0
    }
}

pub open spec fn sat_mul(a: u64, b: u64) -> u64 {
    if a * b > u64::MAX {
        u64::MAX
    } else {
        (a * b) as u64
    }
}

fn add_sat(a: u64, b: u64) -> (r: u64)
    ensures
        r == sat_add(a, b),
{
    match a.checked_add(b) {
        Some(v) => v,
        None => u64::MAX,
    }
}

fn sub_sat(a: u64, b: u64) -> (r: u64)
    ensures
        r == sat_sub(a, b),
{
    if a >= b {
        a - b
    } else {
        0
    }
}

fn mul_sat(a: u64, b: u64) -> (r: u64)
    ensures
        r == sat_mul(a, b),
{
    match a.checked_mul(b) {
        Some(v) => v,
        None => u64::MAX,
    }
}

// ---------------------------------------------------------------------------
// Metrics
// ---------------------------------------------------------------------------

/// Throughput of one block device.
#[derive(Debug)]
pub struct DiskMetrics {
    pub device: String,
    pub read_bytes_per_sec: u64,
    pub write_bytes_per_sec: u64,
}

/// Throughput of one network interface.
#[derive(Debug)]
pub struct NetworkMetrics {
    pub interface: String,
    pub rx_bytes_per_sec: u64,
    pub tx_bytes_per_sec: u64,
}

/// Memory in bytes.
#[derive(Debug, Clone, Copy, PartialEq, Eq, Structural)]
pub struct MemoryMetrics {
    pub total: u64,
    pub used: u64,
    pub available: u64,
}

impl DiskMetrics {
    pub fn duplicate(&self) -> (r: DiskMetrics)
        ensures
            r == *self,
    {
        DiskMetrics {
            device: self.device.clone(),
            read_bytes_per_sec: self.read_bytes_per_sec,
            write_bytes_per_sec: self.write_bytes_per_sec,
        }
    }
}

impl NetworkMetrics {
    pub fn duplicate(&self) -> (r: NetworkMetrics)
        ensures
            r == *self,
    {
        NetworkMetrics {
            interface: self.interface.clone(),
            rx_bytes_per_sec: self.rx_bytes_per_sec,
            tx_bytes_per_sec: self.tx_bytes_per_sec,
        }
    }
}

/// What a report is ordered by: its two directions together.
pub trait Throughput: Sized {
    spec fn spec_total(&self) -> u64;

    fn total(&self) -> (r: u64)
        ensures
            r == self.spec_total(),
    ;
}

impl Throughput for DiskMetrics {
    open spec fn spec_total(&self) -> u64 {
        sat_add(self.read_bytes_per_sec, self.write_bytes_per_sec)
    }

    fn total(&self) -> (r: u64) {
        add_sat(self.read_bytes_per_sec, self.write_bytes_per_sec)
    }
}

impl Throughput for NetworkMetrics {
    open spec fn spec_total(&self) -> u64 {
        sat_add(self.rx_bytes_per_sec, self.tx_bytes_per_sec)
    }

    fn total(&self) -> (r: u64) {
        add_sat(self.rx_bytes_per_sec, self.tx_bytes_per_sec)
    }
}

// ---------------------------------------------------------------------------
// Ordering by throughput
// ---------------------------------------------------------------------------

/// The place of a total `t` in a list ordered from the busiest down: just
/// before the first entry with a smaller total.
pub open spec fn first_below<T: Throughput>(s: Seq<T>, t: u64) -> int
    decreases s.len(),
{
    if s.len() == 0 {
        0
    } else if s[0].spec_total() < t {
        0
    } else {
        1 + first_below(s.drop_first(), t)
    }
}

/// The stable ordering from the busiest entry down, as `sort_by` with the
/// totals compared in reverse gives it: entries with equal totals keep
/// their order.
pub open spec fn by_total_desc<T: Throughput>(s: Seq<T>) -> Seq<T>
    decreases s.len(),
{
    if s.len() == 0 {
        Seq::empty()
    } else {
        let rest = by_total_desc(s.drop_last());
        rest.insert(first_below(rest, s.last().spec_total()), s.last())
    }
}

pub open spec fn desc_sorted<T: Throughput>(s: Seq<T>) -> bool {
    forall|i: int, j: int| 0 <= i < j < s.len() ==> s[i].spec_total() >= s[j].spec_total()
}

proof fn lemma_first_below<T: Throughput>(s: Seq<T>, t: u64)
    ensures
        0 <= first_below(s, t) <= s.len(),
        forall|k: int| 0 <= k < first_below(s, t) ==> s[k].spec_total() >= t,
        first_below(s, t) < s.len() ==> s[first_below(s, t)].spec_total() < t,
    decreases s.len(),
{
    if s.len() > 0 && s[0].spec_total() >= t {
        lemma_first_below(s.drop_first(), t);
        assert forall|k: int| 0 <= k < first_below(s, t) implies s[k].spec_total() >= t by {
            if k > 0 {
                assert(s[k] == s.drop_first()[k - 1]);
            }
        }
    }
}

proof fn lemma_by_total_desc<T: Throughput>(s: Seq<T>)
    ensures
        by_total_desc(s).len() == s.len(),
        desc_sorted(by_total_desc(s)),
        by_total_desc(s).to_multiset() =~= s.to_multiset(),
    decreases s.len(),
{
    broadcast use vstd::seq_lib::group_to_multiset_ensures;
    broadcast use vstd::multiset::group_multiset_axioms;

    if s.len() > 0 {
        let rest = by_total_desc(s.drop_last());
        lemma_by_total_desc(s.drop_last());
        let x = s.last();
        let t = x.spec_total();
        let j = first_below(rest, t);
        lemma_first_below(rest, t);
        let r = rest.insert(j, x);
        assert forall|a: int, b: int| 0 <= a < b < r.len() implies r[a].spec_total()
            >= r[b].spec_total() by {
            if b < j {
            } else if b == j {
            } else if a < j {
                assert(r[b] == rest[b - 1]);
                if j < rest.len() {
                    assert(rest[j].spec_total() < t);
                    if b - 1 > j {
                        assert(rest[j].spec_total() >= rest[b - 1].spec_total());
                    }
                }
            } else if a == j {
                assert(r[b] == rest[b - 1]);
                assert(rest[j].spec_total() >= rest[b - 1].spec_total() || j == b - 1);
            } else {
                assert(r[a] == rest[a - 1]);
                assert(r[b] == rest[b - 1]);
            }
        }
        assert(r.remove(j) =~= rest);
        assert(r[j] == x);
        r.to_multiset_ensures();
        assert(s.drop_last().push(x) =~= s);
        s.drop_last().to_multiset_ensures();
        assert(r.contains(x));
        assert(r.to_multiset().count(x) > 0);
        assert(r.to_multiset() =~= s.to_multiset());
    }
}

/// Orders a report from the busiest entry down; entries with the same
/// total keep their order.
pub fn sort_by_total_desc<T: Throughput>(items: Vec<T>) -> (r: Vec<T>)
    ensures
        r@ == by_total_desc(items@),
{
    let ghost orig = items@;
    let n = items.len();
    let mut rest = items;
    let mut out: Vec<T> = Vec::new();
    let mut k: usize = 0;
    assert(orig.subrange(0, 0) =~= Seq::<T>::empty());
    assert(orig.subrange(0, n as int) =~= orig);
    while k < n
        invariant
            n == orig.len(),
            k <= n,
            rest@ =~= orig.subrange(k as int, n as int),
            out@ == by_total_desc(orig.subrange(0, k as int)),
        decreases n - k,
    {
        let x = rest.remove(0);
        let t = x.total();
        let mut j: usize = 0;
        assert(out@.subrange(0, out@.len() as int) =~= out@);
        while j < out.len() && out[j].total() >= t
            invariant
                j <= out@.len(),
                first_below(out@, t) == j + first_below(
                    out@.subrange(j as int, out@.len() as int),
                    t,
                ),
            decreases out@.len() - j,
        {
            let ghost tail = out@.subrange(j as int, out@.len() as int);
            assert(tail.drop_first() =~= out@.subrange(j + 1, out@.len() as int));
            j = j + 1;
        }
        proof {
            let tail = out@.subrange(j as int, out@.len() as int);
            if j < out@.len() {
                assert(tail[0] == out@[j as int]);
            }
            assert(orig.subrange(0, k + 1).drop_last() =~= orig.subrange(0, k as int));
            assert(orig.subrange(0, k + 1).last() == x);
        }
        out.insert(j, x);
        k = k + 1;
    }
    out
}

/// An ordered report runs from the busiest entry down and holds exactly
/// the entries it was given.
pub proof fn law_reports_are_ordered_by_total<T: Throughput>(items: Seq<T>)
    ensures
        desc_sorted(by_total_desc(items)),
        by_total_desc(items).to_multiset() =~= items.to_multiset(),
{
    lemma_by_total_desc(items);
}

/// The place of a total `t` in a list ordered from the busiest down, just
/// before the first entry whose total is no larger.
pub open spec fn first_at_most<T: Throughput>(s: Seq<T>, t: u64) -> int
    decreases s.len(),
{
    if s.len() == 0 {
        0
    } else if s[0].spec_total() <= t {
        0
    } else {
        1 + first_at_most(s.drop_first(), t)
    }
}

/// The order of the dashboard's device panels, as a stable sort by total
/// followed by a reversal gives it: from the busiest entry down, entries
/// with equal totals in the reverse of their order.
pub open spec fn panel_order<T: Throughput>(s: Seq<T>) -> Seq<T>
    decreases s.len(),
{
    if s.len() == 0 {
        Seq::empty()
    } else {
        let rest = panel_order(s.drop_last());
        rest.insert(first_at_most(rest, s.last().spec_total()), s.last())
    }
}

proof fn lemma_first_at_most<T: Throughput>(s: Seq<T>, t: u64)
    ensures
        0 <= first_at_most(s, t) <= s.len(),
        forall|k: int| 0 <= k < first_at_most(s, t) ==> #[trigger] s[k].spec_total() > t,
        first_at_most(s, t) < s.len() ==> s[first_at_most(s, t)].spec_total() <= t,
    decreases s.len(),
{
    if s.len() > 0 && s[0].spec_total() > t {
        lemma_first_at_most(s.drop_first(), t);
        assert forall|k: int| 0 <= k < first_at_most(s, t) implies #[trigger] s[k].spec_total()
            > t by {
            if k > 0 {
                assert(s[k] == s.drop_first()[k - 1]);
            }
        }
    }
}

/// Orders a panel's rows from the busiest down; rows with equal totals come
/// last-first.
pub fn sort_panel_rows<T: Throughput>(items: Vec<T>) -> (r: Vec<T>)
    ensures
        r@ == panel_order(items@),
{
    let ghost orig = items@;
    let n = items.len();
    let mut rest = items;
    let mut out: Vec<T> = Vec::new();
    let mut k: usize = 0;
    assert(orig.subrange(0, 0) =~= Seq::<T>::empty());
    assert(orig.subrange(0, n as int) =~= orig);
    while k < n
        invariant
            n == orig.len(),
            k <= n,
            rest@ =~= orig.subrange(k as int, n as int),
            out@ == panel_order(orig.subrange(0, k as int)),
        decreases n - k,
    {
        let x = rest.remove(0);
        let t = x.total();
        let mut j: usize = 0;
        assert(out@.subrange(0, out@.len() as int) =~= out@);
        while j < out.len() && out[j].total() > t
            invariant
                j <= out@.len(),
                first_at_most(out@, t) == j + first_at_most(
                    out@.subrange(j as int, out@.len() as int),
                    t,
                ),
            decreases out@.len() - j,
        {
            let ghost tail = out@.subrange(j as int, out@.len() as int);
            assert(tail.drop_first() =~= out@.subrange(j + 1, out@.len() as int));
            j = j + 1;
        }
        proof {
            let tail = out@.subrange(j as int, out@.len() as int);
            if j < out@.len() {
                assert(tail[0] == out@[j as int]);
            }
            assert(orig.subrange(0, k + 1).drop_last() =~= orig.subrange(0, k as int));
            assert(orig.subrange(0, k + 1).last() == x);
        }
        out.insert(j, x);
        k = k + 1;
    }
    out
}

/// A panel runs from the busiest entry down and holds exactly the entries
/// it was given.
pub proof fn law_panels_are_ordered_by_total<T: Throughput>(s: Seq<T>)
    ensures
        panel_order(s).len() == s.len(),
        desc_sorted(panel_order(s)),
        panel_order(s).to_multiset() =~= s.to_multiset(),
    decreases s.len(),
{
    broadcast use vstd::seq_lib::group_to_multiset_ensures;
    broadcast use vstd::multiset::group_multiset_axioms;

    if s.len() > 0 {
        let rest = panel_order(s.drop_last());
        law_panels_are_ordered_by_total(s.drop_last());
        let x = s.last();
        let t = x.spec_total();
        let j = first_at_most(rest, t);
        lemma_first_at_most(rest, t);
        let r = rest.insert(j, x);
        assert forall|a: int, b: int| 0 <= a < b < r.len() implies r[a].spec_total()
            >= r[b].spec_total() by {
            if b < j {
            } else if b == j {
            } else if a < j {
                assert(r[b] == rest[b - 1]);
            } else if a == j {
                assert(r[b] == rest[b - 1]);
                if j < rest.len() {
                    assert(rest[j].spec_total() <= t);
                    if b - 1 > j {
                        assert(rest[j].spec_total() >= rest[b - 1].spec_total());
                    }
                }
            } else {
                assert(r[a] == rest[a - 1]);
                assert(r[b] == rest[b - 1]);
            }
        }
        assert(r.remove(j) =~= rest);
        assert(r[j] == x);
        r.to_multiset_ensures();
        assert(s.drop_last().push(x) =~= s);
        s.drop_last().to_multiset_ensures();
        assert(r.contains(x));
        assert(r.to_multiset().count(x) > 0);
        assert(r.to_multiset() =~= s.to_multiset());
    }
}

// ---------------------------------------------------------------------------
// Cumulative counters
// ---------------------------------------------------------------------------

pub open spec fn counter_view(c: (String, u64, u64)) -> (Seq<char>, u64, u64) {
    (c.0@, c.1, c.2)
}

pub open spec fn counters_view(s: Seq<(String, u64, u64)>) -> Seq<(Seq<char>, u64, u64)> {
    s.map_values(|c: (String, u64, u64)| counter_view(c))
}

/// The counters last recorded under a name; the latest one when a name
/// occurred twice, as a map filled in order keeps it.
pub open spec fn lookup(prev: Seq<(Seq<char>, u64, u64)>, key: Seq<char>) -> Option<(u64, u64)>
    decreases prev.len(),
{
    if prev.len() == 0 {
        None
    } else if prev.last().0 == key {
        Some((prev.last().1, prev.last().2))
    } else {
        lookup(prev.drop_last(), key)
    }
}

/// How far a counter pair moved since the last round: nothing for a name
/// not seen before, and never below zero.
pub open spec fn counter_delta(prev: Seq<(Seq<char>, u64, u64)>, cur: (Seq<char>, u64, u64)) -> (
    u64,
    u64,
) {
    let p = match lookup(prev, cur.0) {
        Some(v) => v,
        None => (cur.1, cur.2),
    };
    (sat_sub(cur.1, p.0), sat_sub(cur.2, p.1))
}

/// Two cumulative counters per name (bytes read and written, or received
/// and sent), kept from one round to the next.
pub struct CounterTracker {
    previous: Vec<(String, u64, u64)>,
    previous_at: Option<Instant>,
}

impl CounterTracker {
    pub closed spec fn previous(&self) -> Seq<(Seq<char>, u64, u64)> {
        counters_view(self.previous@)
    }

    pub closed spec fn previous_at(&self) -> Option<Instant> {
        self.previous_at
    }

    pub fn new() -> (r: CounterTracker)
        ensures
            r.previous() == Seq::<(Seq<char>, u64, u64)>::empty(),
            r.previous_at() is None,
    {
        let r = CounterTracker { previous: Vec::new(), previous_at: None };
        assert(counters_view(r.previous@) =~= Seq::<(Seq<char>, u64, u64)>::empty());
        r
    }

    fn find(&self, key: &str) -> (r: Option<(u64, u64)>)
        ensures
            r == lookup(self.previous(), key@),
    {
        let mut i = self.previous.len();
        assert(self.previous@.subrange(0, i as int) =~= self.previous@);
        while i > 0
            invariant
                i <= self.previous@.len(),
                lookup(self.previous(), key@) == lookup(
                    counters_view(self.previous@.subrange(0, i as int)),
                    key@,
                ),
            decreases i,
        {
            let ghost pre = counters_view(self.previous@.subrange(0, i as int));
            assert(pre.drop_last() =~= counters_view(self.previous@.subrange(0, i - 1)));
            let e = &self.previous[i - 1];
            if crate::text::str_eq(e.0.as_str(), key) {
                return Some((e.1, e.2));
            }
            i = i - 1;
        }
        None
    }

    /// One round: the deltas of each current counter pair since the last
    /// round, in the order given; the current pairs and `now` are kept for
    /// the next round, and the time of the last round is handed back.
    pub fn advance(&mut self, current: Vec<(String, u64, u64)>, now: Instant) -> (r: (
        Option<Instant>,
        Vec<(u64, u64)>,
    ))
        ensures
            r.0 == old(self).previous_at(),
            r.1@.len() == current@.len(),
            forall|i: int|
                0 <= i < current@.len() ==> r.1@[i] == counter_delta(
                    old(self).previous(),
                    counter_view(current@[i]),
                ),
            final(self).previous() == counters_view(current@),
            final(self).previous_at() == Some(now),
    {
        let mut deltas: Vec<(u64, u64)> = Vec::new();
        let mut i: usize = 0;
        while i < current.len()
            invariant
                i <= current@.len(),
                deltas@.len() == i,
                forall|k: int|
                    0 <= k < i ==> deltas@[k] == counter_delta(
                        self.previous(),
                        counter_view(current@[k]),
                    ),
            decreases current@.len() - i,
        {
            let c = &current[i];
            let p = match self.find(c.0.as_str()) {
                Some(v) => v,
                None => (c.1, c.2),
            };
            deltas.push((sub_sat(c.1, p.0), sub_sat(c.2, p.1)));
            i = i + 1;
        }
        let before = self.previous_at;
        self.previous = current;
        self.previous_at = Some(now);
        (before, deltas)
    }
}

/// Counters of one block device, in sectors of 512 bytes.
pub open spec fn disk_bytes(sectors: u64) -> u64 {
    sat_mul(sectors, 512)
}

/// The disk collector: byte counters per device between rounds.
pub struct DiskCollector {
    pub counters: CounterTracker,
}

impl DiskCollector {
    pub fn new() -> (r: DiskCollector)
        ensures
            r.counters.previous() == Seq::<(Seq<char>, u64, u64)>::empty(),
            r.counters.previous_at() is None,
    {
        DiskCollector { counters: CounterTracker::new() }
    }

    /// A device's sector counts as bytes, saturated.
    pub fn sectors_to_bytes(sectors: u64) -> (r: u64)
        ensures
            r == disk_bytes(sectors),
    {
        mul_sat(sectors, 512)
    }
}

/// The network collector: byte counters per interface between rounds.
pub struct NetworkCollector {
    pub counters: CounterTracker,
}

impl NetworkCollector {
    pub fn new() -> (r: NetworkCollector)
        ensures
            r.counters.previous() == Seq::<(Seq<char>, u64, u64)>::empty(),
            r.counters.previous_at() is None,
    {
        NetworkCollector { counters: CounterTracker::new() }
    }
}

/// A counter that was never seen before reports no movement, and a
/// counter that went backwards (a reset) reports none either.
pub proof fn law_counters_never_report_negative_movement(
    prev: Seq<(Seq<char>, u64, u64)>,
    cur: (Seq<char>, u64, u64),
)
    ensures
        lookup(prev, cur.0) is None ==> counter_delta(prev, cur) == (0u64, 0u64),
        match lookup(prev, cur.0) {
            Some(p) => (cur.1 <= p.0 ==> counter_delta(prev, cur).0 == 0) && (cur.1 >= p.0
                ==> counter_delta(prev, cur).0 == cur.1 - p.0),
            None => true,
        },
{
}

// ---------------------------------------------------------------------------
// Memory
// ---------------------------------------------------------------------------

/// The memory collector has no state.
pub struct MemoryCollector;

impl MemoryCollector {
    pub fn new() -> (r: MemoryCollector) {
        MemoryCollector
    }

    /// Memory from the kernel's figures in bytes: what is available (or,
    /// on kernels that do not report it, what is free), and the rest of
    /// the total as used.
    pub fn metrics(total: u64, available: Option<u64>, free: u64) -> (r: MemoryMetrics)
        ensures
            r.total == total,
            r.available == match available {
                Some(a) => a,
                None => free,
            },
            r.used == sat_sub(total, r.available),
    {
        let avail = match available {
            Some(a) => a,
            None => free,
        };
        MemoryMetrics { total, used: sub_sat(total, avail), available: avail }
    }
}

// ---------------------------------------------------------------------------
// Processor time
// ---------------------------------------------------------------------------

/// The kernel's processor time counters of one CPU line of `/proc/stat`,
/// in ticks; the later fields are missing on old kernels.
#[derive(Debug, Clone, Copy, PartialEq, Eq, Structural)]
pub struct CpuTicks {
    pub user: u64,
    pub nice: u64,
    pub system: u64,
    pub idle: u64,
    pub iowait: Option<u64>,
    pub irq: Option<u64>,
    pub softirq: Option<u64>,
    pub steal: Option<u64>,
    pub guest: Option<u64>,
    pub guest_nice: Option<u64>,
}

pub open spec fn or_zero(o: Option<u64>) -> u64 {
    match o {
        Some(v) => v,
        None => 0,
    }
}

/// All the ticks of a CPU line added up, saturating, a missing field
/// counting as zero.
pub open spec fn spec_cpu_total_ticks(c: CpuTicks) -> u64 {
    sat_add(
        sat_add(
            sat_add(
                sat_add(
                    sat_add(
                        sat_add(
                            sat_add(
                                sat_add(sat_add(c.user, c.nice), c.system),
                                c.idle,
                            ),
                            or_zero(c.iowait),
                        ),
                        or_zero(c.irq),
                    ),
                    or_zero(c.softirq),
                ),
                or_zero(c.steal),
            ),
            or_zero(c.guest),
        ),
        or_zero(c.guest_nice),
    )
}

fn unwrap_zero(o: Option<u64>) -> (r: u64)
    ensures
        r == or_zero(o),
{
    match o {
        Some(v) => v,
        None => 0,
    }
}

pub fn cpu_total_ticks(c: &CpuTicks) -> (r: u64)
    ensures
        r == spec_cpu_total_ticks(*c),
{
    let mut t = add_sat(c.user, c.nice);
    t = add_sat(t, c.system);
    t = add_sat(t, c.idle);
    t = add_sat(t, unwrap_zero(c.iowait));
    t = add_sat(t, unwrap_zero(c.irq));
    t = add_sat(t, unwrap_zero(c.softirq));
    t = add_sat(t, unwrap_zero(c.steal));
    t = add_sat(t, unwrap_zero(c.guest));
    add_sat(t, unwrap_zero(c.guest_nice))
}

/// Ticks elapsed and idle ticks elapsed between two readings of a line,
/// neither below zero.
pub open spec fn spec_busy_delta(prev: CpuTicks, cur: CpuTicks) -> (u64, u64) {
    (
        sat_sub(spec_cpu_total_ticks(cur), spec_cpu_total_ticks(prev)),
        sat_sub(cur.idle, prev.idle),
    )
}

pub fn busy_delta(prev: &CpuTicks, cur: &CpuTicks) -> (r: (u64, u64))
    ensures
        r == spec_busy_delta(*prev, *cur),
{
    (sub_sat(cpu_total_ticks(cur), cpu_total_ticks(prev)), sub_sat(cur.idle, prev.idle))
}

/// One reading of `/proc/stat`: the summary line and each CPU's line.
#[derive(Debug, Clone)]
pub struct CpuSample {
    pub total: CpuTicks,
    pub cores: Vec<CpuTicks>,
}

/// What moved between two readings: the summary line, and each CPU that
/// both readings have.
#[derive(Debug)]
pub struct CpuDeltas {
    pub total: (u64, u64),
    pub cores: Vec<(u64, u64)>,
}

/// The processor collector keeps the previous reading.
pub struct CpuCollector {
    previous: Option<CpuSample>,
}

impl CpuCollector {
    pub closed spec fn previous(&self) -> Option<CpuSample> {
        self.previous
    }

    pub fn new() -> (r: CpuCollector)
        ensures
            r.previous() is None,
    {
        CpuCollector { previous: None }
    }

    /// One round: nothing on the first reading; afterwards the elapsed and
    /// idle ticks of the summary line and of the first
    /// `min(previous cores, current cores)` CPUs. The reading is kept.
    pub fn advance(&mut self, current: CpuSample) -> (r: Option<CpuDeltas>)
        ensures
            final(self).previous() == Some(current),
            match old(self).previous() {
                None => r is None,
                Some(p) => r matches Some(d) && d.total == spec_busy_delta(p.total, current.total)
                    && d.cores@.len() == (if p.cores@.len() <= current.cores@.len() {
                    p.cores@.len()
                } else {
                    current.cores@.len()
                }) && forall|i: int|
                    0 <= i < d.cores@.len() ==> d.cores@[i] == spec_busy_delta(
                        p.cores@[i],
                        current.cores@[i],
                    ),
            },
    {
        let r = match &self.previous {
            None => None,
            Some(p) => {
                let total = busy_delta(&p.total, &current.total);
                let n = if p.cores.len() <= current.cores.len() {
                    p.cores.len()
                } else {
                    current.cores.len()
                };
                let mut cores: Vec<(u64, u64)> = Vec::new();
                let mut i: usize = 0;
                while i < n
                    invariant
                        n <= p.cores@.len(),
                        n <= current.cores@.len(),
                        i <= n,
                        cores@.len() == i,
                        forall|k: int|
                            0 <= k < i ==> cores@[k] == spec_busy_delta(
                                p.cores@[k],
                                current.cores@[k],
                            ),
                    decreases n - i,
                {
                    cores.push(busy_delta(&p.cores[i], &current.cores[i]));
                    i = i + 1;
                }
                Some(CpuDeltas { total, cores })
            },
        };
        self.previous = Some(current);
        r
    }
}

// ---------------------------------------------------------------------------
// Processes
// ---------------------------------------------------------------------------

/// The process collector: processor ticks per process and in total
/// between rounds, and how many processes it reports.
pub struct ProcessCollector {
    previous_proc_ticks: HashMap<u32, u64>,
    previous_total_ticks: Option<u64>,
    max_entries: usize,
    cmdline_entries: usize,
}

impl ProcessCollector {
    pub closed spec fn previous_proc_ticks(&self) -> Map<u32, u64> {
        self.previous_proc_ticks@
    }

    pub closed spec fn previous_total_ticks(&self) -> Option<u64> {
        self.previous_total_ticks
    }

    pub closed spec fn spec_max_entries(&self) -> usize {
        self.max_entries
    }

    pub closed spec fn spec_cmdline_entries(&self) -> usize {
        self.cmdline_entries
    }

    /// A collector that reports at most `max_entries` processes, the first
    /// `cmdline_entries` of them with their command lines.
    pub fn new(max_entries: usize, cmdline_entries: usize) -> (r: ProcessCollector)
        ensures
            r.previous_proc_ticks() == Map::<u32, u64>::empty(),
            r.previous_total_ticks() is None,
            r.spec_max_entries() == max_entries,
            r.spec_cmdline_entries() == cmdline_entries,
    {
        ProcessCollector {
            previous_proc_ticks: HashMap::new(),
            previous_total_ticks: None,
            max_entries,
            cmdline_entries,
        }
    }

    pub fn max_entries(&self) -> (r: usize)
        ensures
            r == self.spec_max_entries(),
    {
        self.max_entries
    }

    pub fn cmdline_entries(&self) -> (r: usize)
        ensures
            r == self.spec_cmdline_entries(),
    {
        self.cmdline_entries
    }

    /// The system's ticks since the last round; 0 on the first round.
    pub fn total_delta(&self, total_ticks_now: u64) -> (r: u64)
        ensures
            r == match self.previous_total_ticks() {
                Some(p) => sat_sub(total_ticks_now, p),
                None => 0,
            },
    {
        match self.previous_total_ticks {
            Some(p) => sub_sat(total_ticks_now, p),
            None => 0,
        }
    }

    /// A process's ticks since the last round; 0 for a process not seen
    /// before.
    pub fn process_delta(&self, pid: u32, ticks_now: u64) -> (r: u64)
        ensures
            r == if self.previous_proc_ticks().contains_key(pid) {
                sat_sub(ticks_now, self.previous_proc_ticks()[pid])
            } else {
                0
            },
    {
        match self.previous_proc_ticks.get(&pid) {
            Some(p) => sub_sat(ticks_now, *p),
            None => 0,
        }
    }

    /// Ends a round: the ticks of the processes seen in it, and the
    /// system's, are kept for the next one.
    pub fn finish_round(&mut self, seen: Vec<(u32, u64)>, total_ticks_now: u64)
        ensures
            final(self).previous_total_ticks() == Some(total_ticks_now),
            forall|pid: u32|
                final(self).previous_proc_ticks().contains_key(pid) <==> exists|i: int|
                    0 <= i < seen@.len() && (#[trigger] seen@[i]).0 == pid,
            forall|i: int|
                0 <= i < seen@.len() && (forall|j: int|
                    i < j < seen@.len() ==> (#[trigger] seen@[j]).0 != seen@[i].0)
                    ==> final(self).previous_proc_ticks()[(#[trigger] seen@[i]).0] == seen@[i].1,
            final(self).spec_max_entries() == old(self).spec_max_entries(),
            final(self).spec_cmdline_entries() == old(self).spec_cmdline_entries(),
    {
        let mut next: HashMap<u32, u64> = HashMap::new();
        let mut i: usize = 0;
        while i < seen.len()
            invariant
                i <= seen@.len(),
                forall|pid: u32|
                    next@.contains_key(pid) <==> exists|k: int|
                        0 <= k < i && (#[trigger] seen@[k]).0 == pid,
                forall|k: int|
                    0 <= k < i && (forall|j: int| k < j < i ==> (#[trigger] seen@[j]).0 != seen@[k].0)
                        ==> next@[(#[trigger] seen@[k]).0] == seen@[k].1,
            decreases seen@.len() - i,
        {
            let (pid, ticks) = seen[i];
            next.insert(pid, ticks);
            proof {
                assert forall|p: u32| next@.contains_key(p) <==> exists|k: int|
                    0 <= k < i + 1 && (#[trigger] seen@[k]).0 == p by {
                    if p == pid {
                        assert(seen@[i as int].0 == p);
                    }
                }
            }
            i = i + 1;
        }
        self.previous_proc_ticks = next;
        self.previous_total_ticks = Some(total_ticks_now);
    }
}

/// A process's processor time: user and system ticks, saturating.
pub fn process_ticks(utime: u64, stime: u64) -> (r: u64)
    ensures
        r == sat_add(utime, stime),
{
    add_sat(utime, stime)
}

/// A process's resident memory in bytes from the kibibytes the kernel
/// reports (none reads as 0), saturating.
pub fn rss_bytes(vmrss_kib: Option<u64>) -> (r: u64)
    ensures
        r == sat_mul(or_zero(vmrss_kib), 1024),
{
    mul_sat(unwrap_zero(vmrss_kib), 1024)
}

/// A character is kept in process text when it is printable ASCII or ASCII
/// whitespace.
pub open spec fn kept_char(c: char) -> bool {
    crate::text::is_ascii_graphic(c) || crate::text::is_ascii_ws(c)
}

/// Process names and command lines as they are shown: everything but
/// printable ASCII and ASCII whitespace removed.
pub fn sanitize_text(input: String) -> (r: String)
    ensures
        r@ == input@.filter(|c: char| kept_char(c)),
{
    let v = crate::text::chars_of(input.as_str());
    let n = input.as_str().unicode_len();
    let mut out = String::new();
    let mut i: usize = 0;
    assert(v@.subrange(0, 0).filter(|c: char| kept_char(c)) =~= Seq::<char>::empty());
    while i < v.len()
        invariant
            v@ == input@,
            n == input@.len(),
            i <= v@.len(),
            out@ == v@.subrange(0, i as int).filter(|c: char| kept_char(c)),
        decreases v@.len() - i,
    {
        let c = v[i];
        proof {
            let pre = v@.subrange(0, i as int);
            let post = v@.subrange(0, i + 1);
            assert(post.drop_last() =~= pre);
            assert(post.last() == c);
            pre.lemma_filter_push(c, |c: char| kept_char(c));
            assert(pre.push(c) =~= post);
        }
        let keep = ('!' <= c && c <= '~') || c == ' ' || c == '\t' || c == '\n' || c == '\x0C'
            || c == '\r';
        if keep {
            let one = input.as_str().substring_char(i, i + 1);
            assert(one@ =~= seq![c]);
            out.append(one);
        }
        i = i + 1;
    }
    assert(v@.subrange(0, v@.len() as int) =~= v@);
    out
}

} // verus!
