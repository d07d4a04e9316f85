//! The telemetry store: its rows, the batching of its writer, and the
//! hour-of-day histogram of its logs. The SQLite work is the caller's.
use vstd::prelude::*;

verus! {

/// A searchable document.
#[derive(Debug, Clone)]
pub struct DocumentRow {
    pub id: i64,
    pub kind: String,
    pub ts: u64,
    pub title: String,
    pub body: String,
    pub source: String,
    pub payload: Option<String>,
}

/// A log line.
#[derive(Debug, Clone)]
pub struct LogRow {
    pub ts: u64,
    pub level: String,
    pub target: String,
    pub message: String,
}

/// The size of the store and of its tables.
#[derive(Debug, Clone)]
pub struct StoreStats {
    pub path: String,
    pub bytes: u64,
    pub metrics: u64,
    pub documents: u64,
    pub logs: u64,
    pub embeddings: u64,
}

// ---------------------------------------------------------------------------
// The writer's batching
// ---------------------------------------------------------------------------

/// Writes are committed in batches of this many.
pub const COMMIT_EVERY: usize = 24;

/// The store is pruned after this many writes.
pub const PRUNE_EVERY: usize = 256;

/// How many rows of each table a pruning keeps, and the age it keeps.
pub const KEEP_METRICS: usize = 50000;

pub const KEEP_DOCS: usize = 20000;

pub const KEEP_LOGS: usize = 20000;

pub const KEEP_SECS: u64 = 604800;

/// What happened to the writer's queue.
#[derive(Debug, Clone, Copy, PartialEq, Eq, Structural)]
pub enum WriterEvent {
    /// An operation was applied: a flush request (`sync`) or a write,
    /// which succeeded or not.
    Applied { sync: bool, ok: bool },
    /// Nothing arrived for a while.
    Idle,
    /// Every sender is gone.
    Closed,
}

/// What the writer does next.
#[derive(Debug, Clone, Copy, PartialEq, Eq, Structural)]
pub struct WriterAction {
    /// Commit the open transaction and open another.
    pub commit: bool,
    /// Prune the tables, keeping what is newer than this time.
    pub prune_before: Option<u64>,
    /// Commit and stop.
    pub stop: bool,
}

/// The writes since the last commit and since the last pruning.
#[derive(Debug, Clone, Copy, PartialEq, Eq, Structural)]
pub struct WriterState {
    pub pending: usize,
    pub since_prune: usize,
}

impl WriterState {
    pub open spec fn wf(self) -> bool {
        self.pending < COMMIT_EVERY && self.since_prune < PRUNE_EVERY
    }

    pub fn new() -> (r: WriterState)
        ensures
            r.pending == 0,
            r.since_prune == 0,
            r.wf(),
    {
        WriterState { pending: 0, since_prune: 0 }
    }
}

/// One step of the writer: a successful write counts towards the next
/// commit and the next pruning; a batch of [`COMMIT_EVERY`] writes is
/// committed and [`PRUNE_EVERY`] writes bring a pruning that keeps a week
/// (counted back from `now`, saturating); when the queue is idle what is
/// pending is committed; when it is closed the writer commits and stops.
pub open spec fn spec_writer_step(s: WriterState, e: WriterEvent, now: u64) -> (WriterState, WriterAction) {
    match e {
        WriterEvent::Applied { sync, ok } => {
            let counted = ok && !sync;
            let p = if counted { s.pending + 1 } else { s.pending as int };
            let q = if counted { s.since_prune + 1 } else { s.since_prune as int };
            let commit = p >= COMMIT_EVERY;
            let prune = q >= PRUNE_EVERY;
            (
                WriterState {
                    pending: if commit { 0 } else { p as usize },
                    since_prune: if prune { 0 } else { q as usize },
                },
                WriterAction {
                    commit,
                    prune_before: if prune {
                        Some(if now >= KEEP_SECS { (now - KEEP_SECS) as u64 } else { 0u64 })
                    } else {
                        None
                    },
                    stop: false,
                },
            )
        },
        WriterEvent::Idle => (
            WriterState { pending: 0, since_prune: s.since_prune },
            WriterAction { commit: s.pending > 0, prune_before: None, stop: false },
        ),
        WriterEvent::Closed => (s, WriterAction { commit: true, prune_before: None, stop: true }),
    }
}

pub fn writer_step(s: WriterState, e: WriterEvent, now: u64) -> (r: (WriterState, WriterAction))
    requires
        s.wf(),
    ensures
        r == spec_writer_step(s, e, now),
        r.0.wf(),
{
    match e {
        WriterEvent::Applied { sync, ok } => {
            let counted = ok && !sync;
            let p = if counted {
                s.pending + 1
            } else {
                s.pending
            };
            let q = if counted {
                s.since_prune + 1
            } else {
                s.since_prune
            };
            let commit = p >= COMMIT_EVERY;
            let prune = q >= PRUNE_EVERY;
            (
                WriterState {
                    pending: if commit {
                        0
                    } else {
                        p
                    },
                    since_prune: if prune {
                        0
                    } else {
                        q
                    },
                },
                WriterAction {
                    commit,
                    prune_before: if prune {
                        Some(now.saturating_sub(KEEP_SECS))
                    } else {
                        None
                    },
                    stop: false,
                },
            )
        },
        WriterEvent::Idle => (
            WriterState { pending: 0, since_prune: s.since_prune },
            WriterAction { commit: s.pending > 0, prune_before: None, stop: false },
        ),
        WriterEvent::Closed => (s, WriterAction { commit: true, prune_before: None, stop: true }),
    }
}

/// No write waits for a commit beyond a batch: after any step fewer than
/// [`COMMIT_EVERY`] writes are uncommitted, and a write that completes a
/// batch brings its commit.
pub proof fn law_batches_are_bounded(s: WriterState, e: WriterEvent, now: u64)
    requires
        s.wf(),
    ensures
        spec_writer_step(s, e, now).0.wf(),
        e == (WriterEvent::Applied { sync: false, ok: true }) && s.pending + 1 == COMMIT_EVERY
            ==> spec_writer_step(s, e, now).1.commit,
        e is Closed ==> spec_writer_step(s, e, now).1.commit && spec_writer_step(s, e, now).1.stop,
{
}

// ---------------------------------------------------------------------------
// Log histogram
// ---------------------------------------------------------------------------

/// The hour of the day (UTC) of a Unix time.
pub open spec fn hour_of(ts: u64) -> int {
    ((ts % 86400) / 3600) as int
}

/// How many of the times fall in hour `h`.
pub open spec fn count_in_hour(ts: Seq<u64>, h: int) -> nat
    decreases ts.len(),
{
    if ts.len() == 0 {
        0
    } else {
        count_in_hour(ts.drop_last(), h) + if hour_of(ts.last()) == h {
            1nat
        } else {
            0nat
        }
    }
}

/// The number of log lines per hour of the day.
pub fn log_hour_bins(ts: &Vec<u64>) -> (r: Vec<usize>)
    ensures
        r@.len() == 24,
        forall|h: int| 0 <= h < 24 ==> r@[h] == count_in_hour(ts@, h),
{
    let mut bins: Vec<usize> = Vec::new();
    let mut k: usize = 0;
    while k < 24
        invariant
            k <= 24,
            bins@.len() == k,
            forall|h: int| 0 <= h < k ==> bins@[h] == 0,
        decreases 24 - k,
    {
        bins.push(0);
        k = k + 1;
    }
    let mut i: usize = 0;
    while i < ts.len()
        invariant
            i <= ts@.len(),
            bins@.len() == 24,
            forall|h: int|
                0 <= h < 24 ==> bins@[h] == count_in_hour(ts@.subrange(0, i as int), h),
            forall|h: int| 0 <= h < 24 ==> count_in_hour(ts@.subrange(0, i as int), h) <= i,
        decreases ts@.len() - i,
    {
        let t = ts[i];
        let hour = ((t % 86400) / 3600) as usize;
        proof {
            assert(ts@.subrange(0, i + 1).drop_last() =~= ts@.subrange(0, i as int));
            assert(ts@.subrange(0, i + 1).last() == t);
        }
        let old = bins[hour];
        bins.set(hour, old + 1);
        proof {
            assert forall|h: int| 0 <= h < 24 implies #[trigger] count_in_hour(
                ts@.subrange(0, i + 1),
                h,
            ) <= i + 1 by {
                let pre = ts@.subrange(0, i as int);
                let post = ts@.subrange(0, i + 1);
                assert(post.drop_last() =~= pre);
                assert(count_in_hour(pre, h) <= i);
                assert(count_in_hour(post, h) <= count_in_hour(pre, h) + 1);
            }
        }
        i = i + 1;
    }
    assert(ts@.subrange(0, ts@.len() as int) =~= ts@);
    bins
}

} // verus!
