//! Helpers of the operator console: chart windows, throughput severity,
//! byte counts for people, bounded histories and the command line.
use vstd::prelude::*;

use std::collections::VecDeque;

use crate::observability::{line_spans, lines};
use crate::paths::{join, path_join};
use crate::text::{
    chars_of, decimal, digit_char, find_char_in_span, find_from, spans_cut, str_eq, trim, trim_str,
    u64_to_decimal,
};

verus! {

broadcast use vstd::string::group_string_axioms;

/// The span of history that the charts show.
#[derive(Debug, Clone, Copy, PartialEq, Eq, Structural)]
pub enum TimeWindow {
    Last5m,
    Last1h,
    Last24h,
}

impl TimeWindow {
    pub open spec fn spec_seconds(self) -> u64 {
        match self {
            TimeWindow::Last5m => 300,
            TimeWindow::Last1h => 3600,
            TimeWindow::Last24h => 86400,
        }
    }

    /// The window's length in seconds.
    pub fn seconds(self) -> (r: u64)
        ensures
            r == self.spec_seconds(),
    {
        match self {
            TimeWindow::Last5m => 5 * 60,
            TimeWindow::Last1h => 60 * 60,
            TimeWindow::Last24h => 24 * 60 * 60,
        }
    }

    pub open spec fn spec_label(self) -> Seq<char> {
        match self {
            TimeWindow::Last5m => "5m"@,
            TimeWindow::Last1h => "1h"@,
            TimeWindow::Last24h => "24h"@,
        }
    }

    /// The window's short name.
    pub fn label(self) -> (r: &'static str)
        ensures
            r@ == self.spec_label(),
    {
        match self {
            TimeWindow::Last5m => "5m",
            TimeWindow::Last1h => "1h",
            TimeWindow::Last24h => "24h",
        }
    }
}

/// How heavy a throughput is.
#[derive(Debug, Clone, Copy, PartialEq, Eq, Structural)]
pub enum ThroughputSeverity {
    Nominal,
    Elevated,
    Critical,
}

impl ThroughputSeverity {
    pub open spec fn spec_label(self) -> Seq<char> {
        match self {
            ThroughputSeverity::Nominal => "NOMINAL"@,
            ThroughputSeverity::Elevated => "ELEVATED"@,
            ThroughputSeverity::Critical => "CRITICAL"@,
        }
    }

    /// The severity's badge text.
    pub fn label(self) -> (r: &'static str)
        ensures
            r@ == self.spec_label(),
    {
        match self {
            ThroughputSeverity::Nominal => "NOMINAL",
            ThroughputSeverity::Elevated => "ELEVATED",
            ThroughputSeverity::Critical => "CRITICAL",
        }
    }
}

pub const MIB: u64 = 1048576;

/// From 100 MiB/s a throughput is critical, from 20 MiB/s elevated.
pub open spec fn spec_throughput_severity(bytes_per_sec: u64) -> ThroughputSeverity {
    if bytes_per_sec >= 100 * MIB {
        ThroughputSeverity::Critical
    } else if bytes_per_sec >= 20 * MIB {
        ThroughputSeverity::Elevated
    } else {
        ThroughputSeverity::Nominal
    }
}

pub fn throughput_severity(bytes_per_sec: u64) -> (r: ThroughputSeverity)
    ensures
        r == spec_throughput_severity(bytes_per_sec),
{
    if bytes_per_sec >= 100 * 1024 * 1024 {
        ThroughputSeverity::Critical
    } else if bytes_per_sec >= 20 * 1024 * 1024 {
        ThroughputSeverity::Elevated
    } else {
        ThroughputSeverity::Nominal
    }
}

/// Severity never decreases as the throughput grows.
pub proof fn law_throughput_severity_is_monotone(a: u64, b: u64)
    requires
        a <= b,
    ensures
        spec_throughput_severity(a) == ThroughputSeverity::Critical ==> spec_throughput_severity(b)
            == ThroughputSeverity::Critical,
        spec_throughput_severity(b) == ThroughputSeverity::Nominal ==> spec_throughput_severity(a)
            == ThroughputSeverity::Nominal,
{
}

// ---------------------------------------------------------------------------
// Bounded histories
// ---------------------------------------------------------------------------

/// A history after one more value: the oldest value leaves first when the
/// history already holds `cap` values or more.
pub open spec fn spec_push_history<T>(old: Seq<T>, value: T, cap: usize) -> Seq<T> {
    if old.len() >= cap && old.len() > 0 {
        old.drop_first().push(value)
    } else {
        old.push(value)
    }
}

pub fn push_history<T>(buf: &mut VecDeque<T>, value: T, cap: usize)
    ensures
        final(buf)@ == spec_push_history(old(buf)@, value, cap),
{
    if buf.len() >= cap {
        let _ = buf.pop_front();
    }
    buf.push_back(value);
}

/// A history that starts within its cap stays within it, and the newest
/// value is always the last one.
pub proof fn law_history_stays_within_cap<T>(old: Seq<T>, value: T, cap: usize)
    requires
        old.len() <= cap,
        cap > 0,
    ensures
        spec_push_history(old, value, cap).len() <= cap,
        spec_push_history(old, value, cap).last() == value,
{
}

// ---------------------------------------------------------------------------
// The command line
// ---------------------------------------------------------------------------

/// The value after the first `--profile` that has one.
pub open spec fn spec_profile_arg(args: Seq<Seq<char>>) -> Option<Seq<char>>
    decreases args.len(),
{
    if args.len() < 2 {
        None
    } else if args[0] == "--profile"@ {
        Some(args[1])
    } else {
        spec_profile_arg(args.drop_first())
    }
}

pub open spec fn string_views(v: Seq<String>) -> Seq<Seq<char>> {
    v.map_values(|s: String| s@)
}

/// The profile named on the command line, as in `--profile secure`.
pub fn profile_arg(args: &[String]) -> (r: Option<String>)
    ensures
        match r {
            Some(p) => spec_profile_arg(string_views(args@)) == Some(p@),
            None => spec_profile_arg(string_views(args@)) is None,
        },
{
    let n = args.len();
    let mut i: usize = 0;
    assert(string_views(args@).subrange(0, n as int) =~= string_views(args@));
    while n >= 2 && i < n - 1
        invariant
            n == args@.len(),
            i <= n,
            spec_profile_arg(string_views(args@)) == spec_profile_arg(
                string_views(args@).subrange(i as int, n as int),
            ),
        decreases n - i,
    {
        let ghost rest = string_views(args@).subrange(i as int, n as int);
        if str_eq(args[i].as_str(), "--profile") {
            assert(rest[0] == args@[i as int]@);
            assert(rest[1] == args@[i + 1]@);
            return Some(args[i + 1].clone());
        }
        assert(rest.drop_first() =~= string_views(args@).subrange(i + 1, n as int));
        i = i + 1;
    }
    None
}

/// Where a profile's settings are kept: `<cwd>/config/profiles/<name>.env`.
pub open spec fn spec_profile_path(cwd: Seq<char>, profile: Seq<char>) -> Seq<char> {
    path_join(path_join(path_join(cwd, "config"@), "profiles"@), profile + ".env"@)
}

pub fn profile_path(cwd: &str, profile: &str) -> (r: String)
    ensures
        r@ == spec_profile_path(cwd@, profile@),
{
    let a = join(cwd, "config");
    let b = join(a.as_str(), "profiles");
    let mut name = profile.to_owned();
    name.append(".env");
    join(b.as_str(), name.as_str())
}

/// The setting on a line of a profile, if it holds one: the trimmed line
/// must be neither empty nor a `#` comment and must hold a `=`; the name
/// is what comes before the first `=`, the value what follows, both
/// trimmed.
pub open spec fn spec_profile_setting(line: Seq<char>) -> Option<(Seq<char>, Seq<char>)> {
    let t = trim(line);
    let j = find_from(t, '=', 0);
    if t.len() == 0 || t[0] == '#' || j >= t.len() {
        None
    } else {
        Some((trim(t.subrange(0, j)), trim(t.subrange(j + 1, t.len() as int))))
    }
}

/// The settings of a profile, in order.
pub open spec fn profile_settings(ls: Seq<Seq<char>>) -> Seq<(Seq<char>, Seq<char>)>
    decreases ls.len(),
{
    if ls.len() == 0 {
        Seq::empty()
    } else {
        let rest = profile_settings(ls.drop_last());
        match spec_profile_setting(ls.last()) {
            Some(kv) => rest.push(kv),
            None => rest,
        }
    }
}

pub open spec fn pair_views(v: Seq<(String, String)>) -> Seq<(Seq<char>, Seq<char>)> {
    v.map_values(|p: (String, String)| (p.0@, p.1@))
}

fn profile_setting(line: &str) -> (r: Option<(String, String)>)
    ensures
        match r {
            Some(kv) => spec_profile_setting(line@) == Some((kv.0@, kv.1@)),
            None => spec_profile_setting(line@) is None,
        },
{
    let t = trim_str(line);
    let v = chars_of(t);
    let n = v.len();
    if n == 0 || v[0] == '#' {
        return None;
    }
    let j = find_char_in_span(&v, 0, n, '=');
    assert(v@.subrange(0, n as int) =~= v@);
    if j >= n {
        return None;
    }
    let k = trim_str(t.substring_char(0, j));
    let val = trim_str(t.substring_char(j + 1, n));
    Some((k.to_owned(), val.to_owned()))
}

/// The settings a profile file holds, in the order of its lines.
pub fn profile_env_pairs(raw: &str) -> (r: Vec<(String, String)>)
    ensures
        pair_views(r@) == profile_settings(lines(raw@)),
{
    let v = chars_of(raw);
    let spans = line_spans(&v);
    let ghost ls = lines(v@);
    let mut out: Vec<(String, String)> = Vec::new();
    let mut i: usize = 0;
    assert(ls.subrange(0, 0) =~= Seq::<Seq<char>>::empty());
    assert(pair_views(out@) =~= Seq::<(Seq<char>, Seq<char>)>::empty());
    while i < spans.len()
        invariant
            v@ == raw@,
            ls == lines(v@),
            spans_cut(v@, spans@, ls),
            i <= spans@.len(),
            pair_views(out@) == profile_settings(ls.subrange(0, i as int)),
        decreases spans@.len() - i,
    {
        let (a, b) = spans[i];
        let line = raw.substring_char(a, b);
        assert(line@ == ls[i as int]);
        assert(ls.subrange(0, i + 1).drop_last() =~= ls.subrange(0, i as int));
        match profile_setting(line) {
            Some(kv) => {
                let ghost before = out@;
                out.push(kv);
                assert(pair_views(out@) =~= pair_views(before).push((kv.0@, kv.1@)));
            },
            None => {},
        }
        i = i + 1;
    }
    assert(ls.subrange(0, i as int) =~= ls);
    out
}

// ---------------------------------------------------------------------------
// Byte counts for people
// ---------------------------------------------------------------------------

pub const KIB: u64 = 1024;

pub const GIB: u64 = 1073741824;

/// 2^53: below it every integer is an `f64` exactly.
pub const F64_EXACT: u128 = 9007199254740992;

/// The spacing of `f64` values around `b`: the least power of two `p`
/// (from the starting one, at most 2048) with `b < p * 2^53`.
pub open spec fn grain_at(b: nat, p: nat) -> nat
    decreases 4096 - p,
{
    if p == 0 {
        1
    } else if p >= 2048 || b < p * 9007199254740992 {
        p
    } else {
        grain_at(b, 2 * p)
    }
}

/// `n / d` rounded to the nearest integer, ties to the even one.
pub open spec fn round_half_even(n: nat, d: nat) -> nat {
    let q = n / d;
    let r = n % d;
    if 2 * r > d || (2 * r == d && q % 2 == 1) {
        q + 1
    } else {
        q
    }
}

/// The value of `b as f64`: `b` rounded to its grain, ties to even.
pub open spec fn as_f64(b: nat) -> nat {
    let p = grain_at(b, 1);
    round_half_even(b, p) * p
}

/// `b as f64 / unit` with `log10(scale)` decimals, as `format!` rounds
/// it (to nearest, ties to even), times `scale`.
pub open spec fn scaled(b: nat, unit: nat, scale: nat) -> nat {
    round_half_even(as_f64(b) * scale, unit)
}

/// A fixed-point number `q / scale` with one (scale 10) or two (scale
/// 100) decimals.
pub open spec fn fixed_point(q: nat, scale: nat) -> Seq<char> {
    if scale == 100 {
        decimal(q / 100) + seq!['.', digit_char((q % 100) / 10), digit_char(q % 10)]
    } else {
        decimal(q / 10) + seq!['.', digit_char(q % 10)]
    }
}

/// `1536` reads `1.50 KiB`: binary units with two decimals, plain bytes
/// below 1 KiB.
pub open spec fn spec_human_bytes(b: u64) -> Seq<char> {
    if b >= GIB {
        fixed_point(scaled(b as nat, GIB as nat, 100), 100) + " GiB"@
    } else if b >= MIB {
        fixed_point(scaled(b as nat, MIB as nat, 100), 100) + " MiB"@
    } else if b >= KIB {
        fixed_point(scaled(b as nat, KIB as nat, 100), 100) + " KiB"@
    } else {
        decimal(b as nat) + " B"@
    }
}

/// `1536` reads `1.5 KB`: binary multiples named KB, MB and GB, with one
/// decimal, plain bytes below 1 KB.
pub open spec fn spec_format_bytes(b: u64) -> Seq<char> {
    if b >= GIB {
        fixed_point(scaled(b as nat, GIB as nat, 10), 10) + " GB"@
    } else if b >= MIB {
        fixed_point(scaled(b as nat, MIB as nat, 10), 10) + " MB"@
    } else if b >= KIB {
        fixed_point(scaled(b as nat, KIB as nat, 10), 10) + " KB"@
    } else {
        decimal(b as nat) + " B"@
    }
}

fn f64_value(b: u64) -> (r: u128)
    ensures
        r == as_f64(b as nat),
        r <= b + 4096,
{
    let mut p: u128 = 1;
    while p < 2048 && (b as u128) >= p * F64_EXACT
        invariant
            1 <= p < 4096,
            grain_at(b as nat, p as nat) == grain_at(b as nat, 1),
        decreases 4096 - p,
    {
        p = p * 2;
    }
    assert(grain_at(b as nat, p as nat) == p);
    let q = (b as u128) / p;
    let r = (b as u128) % p;
    let rq = if 2 * r > p || (2 * r == p && q % 2 == 1) {
        q + 1
    } else {
        q
    };
    assert(q * p <= b) by (nonlinear_arith)
        requires
            q == (b as u128) / p,
            p >= 1,
    ;
    assert(rq * p <= b + p) by (nonlinear_arith)
        requires
            rq <= q + 1,
            q * p <= b,
    ;
    rq * p
}

/// `q` as a fixed-point number with `scale` (10 or 100) in the denominator.
fn fixed_point_text(q: u64, scale: u64) -> (r: String)
    requires
        scale == 10 || scale == 100,
    ensures
        r@ == fixed_point(q as nat, scale as nat),
{
    let mut out = u64_to_decimal(q / scale);
    out.append(".");
    proof {
        reveal_strlit(".");
    }
    if scale == 100 {
        let d1 = u64_to_decimal((q % 100) / 10);
        out.append(d1.as_str());
    }
    let d2 = u64_to_decimal(q % 10);
    out.append(d2.as_str());
    proof {
        if scale == 100 {
            assert(out@ =~= fixed_point(q as nat, scale as nat));
        } else {
            assert(out@ =~= fixed_point(q as nat, scale as nat));
        }
    }
    out
}

fn scaled_text(b: u64, unit: u64, scale: u64) -> (r: String)
    requires
        unit >= 1024,
        scale == 10 || scale == 100,
    ensures
        r@ == fixed_point(scaled(b as nat, unit as nat, scale as nat), scale as nat),
{
    let f = f64_value(b);
    assert(f * scale <= (0x1_0000_0000_0000_0000u128 + 4096) * 100) by (nonlinear_arith)
        requires
            f <= b + 4096,
            b < 0x1_0000_0000_0000_0000u128,
            scale <= 100,
    ;
    let n: u128 = f * (scale as u128);
    let d: u128 = unit as u128;
    let q = n / d;
    let r = n % d;
    assert(q * 1024 <= n) by (nonlinear_arith)
        requires
            q == n / d,
            d >= 1024,
    ;
    assert(q < 0xffff_ffff_ffff_ffffu128);
    let rq = if 2 * r > d || (2 * r == d && q % 2 == 1) {
        q + 1
    } else {
        q
    };
    fixed_point_text(rq as u64, scale)
}

/// A byte count in binary units with two decimals.
pub fn human_bytes(bytes: u64) -> (r: String)
    ensures
        r@ == spec_human_bytes(bytes),
{
    if bytes >= GIB {
        let mut s = scaled_text(bytes, GIB, 100);
        s.append(" GiB");
        s
    } else if bytes >= MIB {
        let mut s = scaled_text(bytes, MIB, 100);
        s.append(" MiB");
        s
    } else if bytes >= KIB {
        let mut s = scaled_text(bytes, KIB, 100);
        s.append(" KiB");
        s
    } else {
        let mut s = u64_to_decimal(bytes);
        s.append(" B");
        s
    }
}

/// A byte count in binary multiples with one decimal.
pub fn format_bytes(bytes: u64) -> (r: String)
    ensures
        r@ == spec_format_bytes(bytes),
{
    if bytes >= GIB {
        let mut s = scaled_text(bytes, GIB, 10);
        s.append(" GB");
        s
    } else if bytes >= MIB {
        let mut s = scaled_text(bytes, MIB, 10);
        s.append(" MB");
        s
    } else if bytes >= KIB {
        let mut s = scaled_text(bytes, KIB, 10);
        s.append(" KB");
        s
    } else {
        let mut s = u64_to_decimal(bytes);
        s.append(" B");
        s
    }
}

/// Below 2^53 bytes the count is read exactly: its `f64` value is itself.
pub proof fn law_small_counts_are_exact(b: u64)
    requires
        b < 9007199254740992,
    ensures
        as_f64(b as nat) == b,
{
    assert(grain_at(b as nat, 1) == 1);
}

// ---------------------------------------------------------------------------
// Process churn between two snapshots
// ---------------------------------------------------------------------------

/// Whether `x` occurs in `v[0..n]`.
fn occurs_before(v: &Vec<u32>, n: usize, x: u32) -> (r: bool)
    requires
        n <= v@.len(),
    ensures
        r == v@.subrange(0, n as int).contains(x),
{
    let mut k: usize = 0;
    while k < n
        invariant
            n <= v@.len(),
            k <= n,
            forall|j: int| 0 <= j < k ==> v@[j] != x,
        decreases n - k,
    {
        if v[k] == x {
            assert(v@.subrange(0, n as int)[k as int] == x);
            return true;
        }
        k = k + 1;
    }
    false
}

/// How many distinct ids of `a` are missing from `b`.
fn fresh_count(a: &Vec<u32>, b: &Vec<u32>) -> (r: usize)
    ensures
        r == a@.to_set().difference(b@.to_set()).len(),
{
    let mut count: usize = 0;
    let mut i: usize = 0;
    let ghost mut d: Seq<u32> = Seq::empty();
    proof {
        assert(d.to_set() =~= a@.subrange(0, 0).to_set().difference(b@.to_set()));
    }
    while i < a.len()
        invariant
            i <= a@.len(),
            d.no_duplicates(),
            d.to_set() == a@.subrange(0, i as int).to_set().difference(b@.to_set()),
            count == d.len(),
            d.len() <= i,
        decreases a@.len() - i,
    {
        let x = a[i];
        let seen = occurs_before(a, i, x);
        let known = occurs_before(b, b.len(), x);
        proof {
            assert(b@.subrange(0, b@.len() as int) =~= b@);
        }
        let ghost d0 = d;
        if !seen && !known {
            proof {
                assert(!d0.contains(x)) by {
                    if d0.contains(x) {
                        assert(d0.to_set().contains(x));
                    }
                }
                d = d0.push(x);
                assert forall|p: int, q: int| 0 <= p < q < d.len() implies d[p] != d[q] by {
                    if q == d.len() - 1 {
                        assert(d[p] == d0[p]);
                        assert(d0.contains(d0[p]));
                    }
                }
            }
            count = count + 1;
        }
        proof {
            let before = a@.subrange(0, i as int);
            let after = a@.subrange(0, i + 1);
            assert forall|y: u32| after.contains(y) <==> before.contains(y) || y == x by {
                if after.contains(y) {
                    let k = choose|k: int| 0 <= k < after.len() && after[k] == y;
                    if k < i {
                        assert(before[k] == y);
                    }
                }
                if before.contains(y) {
                    let k = choose|k: int| 0 <= k < before.len() && before[k] == y;
                    assert(after[k] == y);
                }
                if y == x {
                    assert(after[i as int] == y);
                }
            }
            assert forall|y: u32| d.contains(y) <==> d0.contains(y) || (y == x && !seen && !known)
                by {
                if d.contains(y) && !d0.contains(y) && !(!seen && !known) {
                    assert(d == d0);
                }
                if y == x && !seen && !known {
                    assert(d[d.len() - 1] == x);
                }
                if d0.contains(y) && !seen && !known {
                    let k = choose|k: int| 0 <= k < d0.len() && d0[k] == y;
                    assert(d[k] == y);
                }
            }
            assert forall|y: u32| d0.contains(y) <==> before.contains(y) && !b@.contains(y) by {
                assert(d0.to_set().contains(y) == d0.contains(y));
                assert(before.to_set().difference(b@.to_set()).contains(y) == (before.contains(y)
                    && !b@.contains(y)));
            }
            assert forall|y: u32| #[trigger] d.to_set().contains(y) == after.to_set().difference(
                b@.to_set(),
            ).contains(y) by {
                assert(d.to_set().contains(y) == d.contains(y));
                assert(after.to_set().difference(b@.to_set()).contains(y) == (after.contains(y)
                    && !b@.contains(y)));
            }
            assert(d.to_set() =~= after.to_set().difference(b@.to_set()));
        }
        i = i + 1;
    }
    proof {
        assert(a@.subrange(0, i as int) =~= a@);
        d.unique_seq_to_set();
    }
    count
}

/// How many processes started and exited between two snapshots, by the
/// sets of their ids; nothing without an earlier snapshot's ids.
pub open spec fn spec_process_churn(previous: Seq<u32>, current: Seq<u32>) -> Option<(nat, nat)> {
    if previous.len() == 0 {
        None
    } else {
        Some(
            (
                current.to_set().difference(previous.to_set()).len(),
                previous.to_set().difference(current.to_set()).len(),
            ),
        )
    }
}

/// The processes started and exited since the previous snapshot.
pub fn process_churn(previous: &Vec<u32>, current: &Vec<u32>) -> (r: Option<(usize, usize)>)
    ensures
        match r {
            Some((started, exited)) => spec_process_churn(previous@, current@) == Some(
                (started as nat, exited as nat),
            ),
            None => spec_process_churn(previous@, current@) is None,
        },
{
    if previous.len() == 0 {
        return None;
    }
    let started = fresh_count(current, previous);
    let exited = fresh_count(previous, current);
    Some((started, exited))
}

} // verus!
