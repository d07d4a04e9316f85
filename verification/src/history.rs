//! The snapshot history: where it is kept and how its retention limits
//! decide which rows are deleted after each append.
use vstd::prelude::*;

use crate::audit::now_ts;
use crate::paths::{join, parent, path_join, spec_path_parent};
use crate::text::{decimal, u64_to_decimal};

verus! {

broadcast use vstd::string::group_string_axioms;

/// The limits that the history is kept within.
#[derive(Debug, Clone, Copy)]
pub struct SnapshotHistoryRetention {
    pub max_entries: usize,
    pub max_age_secs: Option<u64>,
    pub max_bytes: Option<u64>,
    pub slim_records: bool,
}

/// `<root>/.beads/state`.
pub open spec fn spec_state_dir(root: Seq<char>) -> Seq<char> {
    path_join(path_join(root, ".beads"@), "state"@)
}

/// `<root>/.beads/state/snapshots.sqlite3`.
pub open spec fn spec_default_snapshot_history_path(root: Seq<char>) -> Seq<char> {
    path_join(spec_state_dir(root), "snapshots.sqlite3"@)
}

/// Where the snapshot history is kept under a working directory.
pub fn default_snapshot_history_path(root: &str) -> (r: String)
    ensures
        r@ == spec_default_snapshot_history_path(root@),
{
    let a = join(root, ".beads");
    let b = join(a.as_str(), "state");
    join(b.as_str(), "snapshots.sqlite3")
}

/// The history file of one run started at `run_ts`:
/// `snapshots-<run_ts>.jsonl` in the directory of the default history
/// (or in `<root>/.beads/state` when that path has no parent).
pub open spec fn spec_run_scoped_path(root: Seq<char>, run_ts: u64) -> Seq<char> {
    let dir = match spec_path_parent(spec_default_snapshot_history_path(root)) {
        Some(p) => p,
        None => spec_state_dir(root),
    };
    path_join(dir, "snapshots-"@ + decimal(run_ts as nat) + ".jsonl"@)
}

/// The history file of a run started at `run_ts`.
pub fn snapshot_history_path_at(root: &str, run_ts: u64) -> (r: String)
    ensures
        r@ == spec_run_scoped_path(root@, run_ts),
{
    let base = default_snapshot_history_path(root);
    let dir = match parent(base.as_str()) {
        Some(p) => p,
        None => {
            let a = join(root, ".beads");
            join(a.as_str(), "state")
        },
    };
    let mut name = "snapshots-".to_owned();
    let d = u64_to_decimal(run_ts);
    name.append(d.as_str());
    name.append(".jsonl");
    join(dir.as_str(), name.as_str())
}

/// The history file of a run that starts now: the file of
/// [`snapshot_history_path_at`] for some reading of the clock.
pub fn run_scoped_snapshot_history_path(root: &str) -> (r: String)
    ensures
        exists|t: u64| r@ == spec_run_scoped_path(root@, t),
{
    let t = now_ts();
    snapshot_history_path_at(root, t)
}

/// What the retention limits delete after a snapshot taken at `now`.
#[derive(Debug, Clone, Copy, PartialEq, Eq)]
pub struct RetentionPlan {
    /// Delete the rows taken before this time.
    pub delete_before: Option<u64>,
    /// Keep only this many of the newest rows.
    pub keep_newest: Option<usize>,
    /// Delete this many of the oldest rows, the file being over its size cap.
    pub trim_oldest: Option<u64>,
}

/// The file's size as SQLite reports it: pages times page size, saturated.
pub open spec fn spec_file_bytes(page_count: u64, page_size: u64) -> u64 {
    if page_count * page_size > u64::MAX {
        u64::MAX
    } else {
        (page_count * page_size) as u64
    }
}

/// The age limit deletes what is older than `now - max_age` (saturated at
/// 0); a positive entry limit keeps that many newest rows; a byte limit
/// that the file exceeds deletes the oldest quarter of the rows (at least
/// one).
pub open spec fn spec_retention_plan(
    r: SnapshotHistoryRetention,
    now: u64,
    page_count: u64,
    page_size: u64,
    row_count: u64,
) -> RetentionPlan {
    RetentionPlan {
        delete_before: match r.max_age_secs {
            Some(a) => Some(if now >= a { (now - a) as u64 } else { 0u64 }),
            None => None,
        },
        keep_newest: if r.max_entries > 0 { Some(r.max_entries) } else { None },
        trim_oldest: match r.max_bytes {
            Some(m) => if spec_file_bytes(page_count, page_size) > m {
                Some(if row_count / 4 >= 1 { (row_count / 4) as u64 } else { 1u64 })
            } else {
                None
            },
            None => None,
        },
    }
}

/// Decides what the retention limits delete, from the time of the new
/// snapshot, the file's page count and page size, and the number of rows
/// left after the age and entry limits.
pub fn retention_plan(
    r: SnapshotHistoryRetention,
    now: u64,
    page_count: u64,
    page_size: u64,
    row_count: u64,
) -> (p: RetentionPlan)
    ensures
        p == spec_retention_plan(r, now, page_count, page_size, row_count),
{
    let delete_before = match r.max_age_secs {
        Some(a) => Some(now.saturating_sub(a)),
        None => None,
    };
    let keep_newest = if r.max_entries > 0 {
        Some(r.max_entries)
    } else {
        None
    };
    let trim_oldest = match r.max_bytes {
        Some(m) => {
            let bytes = match page_count.checked_mul(page_size) {
                Some(b) => b,
                None => u64::MAX,
            };
            if bytes > m {
                let q = row_count / 4;
                Some(if q >= 1 { q } else { 1 })
            } else {
                None
            }
        },
        None => None,
    };
    RetentionPlan { delete_before, keep_newest, trim_oldest }
}

/// A row count read back from SQLite, negative counts read as 0.
pub fn row_count_from(count: i64) -> (r: usize)
    requires
        count <= usize::MAX,
    ensures
        r == if count < 0 { 0 } else { count },
{
    if count < 0 {
        0
    } else {
        count as usize
    }
}

/// After a snapshot taken at `now`, no row older than `now - max_age`
/// survives, and an entry limit is always honoured: a positive limit keeps
/// exactly that many newest rows at most.
pub proof fn law_retention_respects_limits(
    r: SnapshotHistoryRetention,
    now: u64,
    page_count: u64,
    page_size: u64,
    row_count: u64,
)
    ensures
        ({
            let p = spec_retention_plan(r, now, page_count, page_size, row_count);
            &&& (r.max_age_secs matches Some(a) ==> p.delete_before matches Some(t) && t + a
                >= now && t <= now)
            &&& (r.max_entries > 0 <==> p.keep_newest == Some(r.max_entries))
            &&& (p.trim_oldest matches Some(n) ==> 1 <= n && (row_count >= 4 ==> 4 * n
                <= row_count))
        }),
{
}

} // verus!
