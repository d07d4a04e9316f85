//! What the telemetry worker stores of each snapshot: the summed
//! throughput of its rows and the searchable documents it indexes.
use vstd::prelude::*;

use crate::collectors::{DiskMetrics, NetworkMetrics, Throughput};
use crate::text::{decimal, u64_to_decimal};

verus! {

broadcast use vstd::string::group_string_axioms;

/// The totals of a report added up.
pub open spec fn sum_totals<T: Throughput>(s: Seq<T>) -> nat
    decreases s.len(),
{
    if s.len() == 0 {
        0
    } else {
        sum_totals(s.drop_last()) + s.last().spec_total() as nat
    }
}

/// The throughput of a whole report: each row's total (saturating)
/// summed. The sum itself must fit, as adding up overflowing integers is
/// an error.
pub fn throughput_total<T: Throughput>(items: &Vec<T>) -> (r: u64)
    requires
        sum_totals(items@) <= u64::MAX,
    ensures
        r == sum_totals(items@),
{
    let mut acc: u64 = 0;
    let mut i: usize = 0;
    while i < items.len()
        invariant
            i <= items@.len(),
            acc == sum_totals(items@.subrange(0, i as int)),
            sum_totals(items@) <= u64::MAX,
        decreases items@.len() - i,
    {
        proof {
            assert(items@.subrange(0, i + 1).drop_last() =~= items@.subrange(0, i as int));
            lemma_sum_totals_prefix(items@, i + 1);
        }
        acc = acc + items[i].total();
        i = i + 1;
    }
    assert(items@.subrange(0, i as int) =~= items@);
    acc
}

/// A prefix adds up to no more than the whole.
pub proof fn lemma_sum_totals_prefix<T: Throughput>(s: Seq<T>, k: int)
    requires
        0 <= k <= s.len(),
    ensures
        sum_totals(s.subrange(0, k)) <= sum_totals(s),
    decreases s.len() - k,
{
    if k < s.len() {
        lemma_sum_totals_prefix(s, k + 1);
        assert(s.subrange(0, k + 1).drop_last() =~= s.subrange(0, k));
    } else {
        assert(s.subrange(0, k) =~= s);
    }
}

/// Processes, disks and interfaces are indexed as documents every 15
/// seconds of snapshot time, when indexing is on.
pub open spec fn spec_index_due(index_processes: bool, ts: u64) -> bool {
    index_processes && ts % 15 == 0
}

pub fn index_due(index_processes: bool, ts: u64) -> (r: bool)
    ensures
        r == spec_index_due(index_processes, ts),
{
    index_processes && ts % 15 == 0
}

/// How many processes, disks and interfaces are indexed.
pub const INDEXED_PROCESSES: usize = 8;

pub const INDEXED_DISKS: usize = 4;

pub const INDEXED_INTERFACES: usize = 4;

/// A document to index: title, body and source.
#[derive(Debug)]
pub struct DocumentText {
    pub title: String,
    pub body: String,
    pub source: String,
}

/// The title and source of the host document: `host:<id>`.
pub fn host_label(host_id: &str) -> (r: String)
    ensures
        r@ == "host:"@ + host_id@,
{
    let mut s = "host:".to_owned();
    s.append(host_id);
    s
}

/// A disk's document: titled by the device, `disk <dev> read <r> write <w>`,
/// from `disk:<dev>`.
pub fn disk_document(d: &DiskMetrics) -> (r: DocumentText)
    ensures
        r.title@ == d.device@,
        r.body@ == "disk "@ + d.device@ + " read "@ + decimal(d.read_bytes_per_sec as nat)
            + " write "@ + decimal(d.write_bytes_per_sec as nat),
        r.source@ == "disk:"@ + d.device@,
{
    let mut body = "disk ".to_owned();
    body.append(d.device.as_str());
    body.append(" read ");
    let r = u64_to_decimal(d.read_bytes_per_sec);
    body.append(r.as_str());
    body.append(" write ");
    let w = u64_to_decimal(d.write_bytes_per_sec);
    body.append(w.as_str());
    let mut source = "disk:".to_owned();
    source.append(d.device.as_str());
    DocumentText { title: d.device.clone(), body, source }
}

/// An interface's document: titled by the interface,
/// `iface <name> rx <rx> tx <tx>`, from `net:<name>`.
pub fn network_document(n: &NetworkMetrics) -> (r: DocumentText)
    ensures
        r.title@ == n.interface@,
        r.body@ == "iface "@ + n.interface@ + " rx "@ + decimal(n.rx_bytes_per_sec as nat) + " tx "@
            + decimal(n.tx_bytes_per_sec as nat),
        r.source@ == "net:"@ + n.interface@,
{
    let mut body = "iface ".to_owned();
    body.append(n.interface.as_str());
    body.append(" rx ");
    let r = u64_to_decimal(n.rx_bytes_per_sec);
    body.append(r.as_str());
    body.append(" tx ");
    let t = u64_to_decimal(n.tx_bytes_per_sec);
    body.append(t.as_str());
    let mut source = "net:".to_owned();
    source.append(n.interface.as_str());
    DocumentText { title: n.interface.clone(), body, source }
}

// ---------------------------------------------------------------------------
// The periodic tasks
// ---------------------------------------------------------------------------

/// How long ago each periodic task last ran, in milliseconds; none when it
/// has not run yet.
#[derive(Debug, Clone, Copy, PartialEq, Eq, Structural)]
pub struct PollClock {
    pub since_connectors_ms: Option<u64>,
    pub since_anchor_ms: Option<u64>,
    pub since_history_probe_ms: Option<u64>,
}

/// Which periodic tasks a session has, and how often each runs.
#[derive(Debug, Clone, Copy, PartialEq, Eq, Structural)]
pub struct PollConfig {
    pub has_connectors: bool,
    pub connector_interval_ms: u64,
    pub anchoring: bool,
    pub anchor_interval_ms: u64,
    pub history_enabled: bool,
}

/// The tasks that are due.
#[derive(Debug, Clone, Copy, PartialEq, Eq, Structural)]
pub struct PollTasks {
    pub poll_connectors: bool,
    pub anchor: bool,
    pub probe_history: bool,
}

/// How often the snapshot history is counted: every thirty seconds.
pub const HISTORY_PROBE_MS: u64 = 30000;

/// A task is due when it has not run yet or its interval has passed since
/// it last ran.
pub open spec fn interval_passed(since: Option<u64>, interval: u64) -> bool {
    match since {
        None => true,
        Some(ms) => ms >= interval,
    }
}

/// The connectors are polled when there are any, the audit trail's
/// anchoring is considered when it is configured, and the snapshot history
/// is counted when it is kept, each once its interval has passed.
pub open spec fn spec_due_tasks(c: PollClock, cfg: PollConfig) -> PollTasks {
    PollTasks {
        poll_connectors: cfg.has_connectors && interval_passed(
            c.since_connectors_ms,
            cfg.connector_interval_ms,
        ),
        anchor: cfg.anchoring && interval_passed(c.since_anchor_ms, cfg.anchor_interval_ms),
        probe_history: cfg.history_enabled && interval_passed(
            c.since_history_probe_ms,
            HISTORY_PROBE_MS,
        ),
    }
}

fn passed(since: Option<u64>, interval: u64) -> (r: bool)
    ensures
        r == interval_passed(since, interval),
{
    match since {
        None => true,
        Some(ms) => ms >= interval,
    }
}

pub fn due_tasks(c: &PollClock, cfg: &PollConfig) -> (r: PollTasks)
    ensures
        r == spec_due_tasks(*c, *cfg),
{
    PollTasks {
        poll_connectors: cfg.has_connectors && passed(c.since_connectors_ms, cfg.connector_interval_ms),
        anchor: cfg.anchoring && passed(c.since_anchor_ms, cfg.anchor_interval_ms),
        probe_history: cfg.history_enabled && passed(c.since_history_probe_ms, HISTORY_PROBE_MS),
    }
}

} // verus!
