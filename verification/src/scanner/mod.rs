//! Scanner core: the decisions of the filesystem walk and of the batching
//! writer, and the status snapshots shown while a scan runs.

pub mod queries;
pub mod walk;
pub mod writer;

pub use queries::{LargestFile, TreemapNode};

use vstd::prelude::*;
use crate::error::AppError;
use vstd::string::StringExecFns;

verus! {

/// Snapshot of an in-progress or finished scan, safe to send to the UI.
#[derive(Debug, Clone)]
pub struct ScanStatus {
    pub scan_id: i64,
    /// "running" | "done" | "cancelled" | "failed"
    pub status: String,
    pub files_seen: u64,
    pub bytes_seen: u64,
    pub current_path: Option<String>,
    pub started_at: u64,
    pub finished_at: Option<u64>,
    pub elapsed_ms: u64,
}

/// Configuration for a scan.
#[derive(Debug, Clone)]
pub struct ScanConfig {
    pub roots: Vec<String>,
    pub max_depth: Option<usize>,
}

/// `x * 1000`, saturating at `u64::MAX`.
pub open spec fn millis_of(secs: int) -> int {
    if secs * 1000 > u64::MAX { u64::MAX as int } else { secs * 1000 }
}

/// Elapsed milliseconds between `started_at` and the finish time, or `now`
/// while still running; a clock that went backwards gives 0.
pub open spec fn elapsed_spec(started_at: u64, finished_at: Option<u64>, now: u64) -> int {
    let end: u64 = match finished_at { Some(f) => f, None => now };
    if end < started_at { 0 } else { millis_of(end - started_at) }
}

/// Elapsed time of a scan or delete run, in milliseconds (saturating).
pub fn elapsed_ms(started_at: u64, finished_at: Option<u64>, now: u64) -> (ms: u64)
    ensures
        ms == elapsed_spec(started_at, finished_at, now),
{
    let end = match finished_at {
        Some(f) => f,
        None => now,
    };
    let secs = end.saturating_sub(started_at);
    match secs.checked_mul(1000) {
        Some(v) => v,
        None => u64::MAX,
    }
}

/// Builds the status snapshot from the live counters of a scan, with `now`
/// the current Unix time in seconds.
pub fn scan_status(
    scan_id: i64,
    status: String,
    files_seen: u64,
    bytes_seen: u64,
    current_path: Option<String>,
    started_at: u64,
    finished_at: Option<u64>,
    now: u64,
) -> (s: ScanStatus)
    ensures
        s.scan_id == scan_id,
        s.status == status,
        s.files_seen == files_seen,
        s.bytes_seen == bytes_seen,
        s.current_path == current_path,
        s.started_at == started_at,
        s.finished_at == finished_at,
        s.elapsed_ms == elapsed_spec(started_at, finished_at, now),
{
    let elapsed = elapsed_ms(started_at, finished_at, now);
    ScanStatus {
        scan_id,
        status,
        files_seen,
        bytes_seen,
        current_path,
        started_at,
        finished_at,
        elapsed_ms: elapsed,
    }
}

/// The status a run ends in: `Ok(true)` means it was cancelled.
pub open spec fn final_status_text(outcome: Result<bool, AppError>) -> Seq<char> {
    match outcome {
        Ok(true) => "cancelled"@,
        Ok(false) => "done"@,
        Err(_) => "failed"@,
    }
}

/// The status string a scan or delete worker records once it stops.
pub fn final_status(outcome: &Result<bool, AppError>) -> (s: String)
    ensures
        s@ == final_status_text(*outcome),
{
    match outcome {
        Ok(true) => String::from_str("cancelled"),
        Ok(false) => String::from_str("done"),
        Err(_) => String::from_str("failed"),
    }
}

} // verus!
