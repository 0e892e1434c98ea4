//! Delete pipeline: the bookkeeping of a delete run, the quarantine naming
//! and retention rules, restore and purge of quarantined items, and the
//! checks made before an administrator-elevated retry.

pub mod admin;
pub mod quarantine;

use vstd::prelude::*;
use vstd::string::StringExecFns;
use crate::error::AppError;
use crate::paths::{lexically_under, lexically_within, plain_dir};
use quarantine::{quarantine_dest, quarantine_name, quarantine_path};
use crate::scanner::{elapsed_ms, elapsed_spec};

pub use quarantine::QuarantineEntry;

verus! {

/// How a delete run disposes of each path.
#[derive(Debug, Clone, Copy, PartialEq, Eq, Structural)]
pub enum DeleteMode {
    /// Move to the system Trash (restorable from Finder).
    Trash,
    /// Move into the app's quarantine (auto-purged after the retention period,
    /// restorable from the app).
    Quarantine,
    /// Immediate `unlink` / `remove_dir_all`.
    Hard,
}

/// A path that could not be deleted, and why.
#[derive(Debug, Clone)]
pub struct DeleteError {
    pub path: String,
    pub message: String,
}

/// Snapshot of a delete run for the UI.
#[derive(Debug, Clone)]
pub struct DeleteStatus {
    pub delete_id: i64,
    pub mode: DeleteMode,
    /// "running" | "done" | "cancelled" | "failed"
    pub status: String,
    pub files_seen: u64,
    pub bytes_freed: i64,
    pub total_files: i64,
    pub current_path: Option<String>,
    pub errors: Vec<DeleteError>,
    pub started_at: u64,
    pub finished_at: Option<u64>,
    pub elapsed_ms: u64,
}

/// Returned synchronously when a delete run starts.
#[derive(Debug, Clone, Copy)]
pub struct StartDeleteResult {
    pub delete_id: i64,
    pub total_files: i64,
}

/// Outcome of a synchronous restore, purge or elevated delete.
#[derive(Debug, Clone)]
pub struct DeleteResult {
    pub freed: i64,
    pub deleted: Vec<String>,
    pub errors: Vec<DeleteError>,
}

/// Builds the snapshot of a delete run from its live counters; `now` is the
/// current Unix time in seconds.
pub fn delete_status(
    delete_id: i64,
    mode: DeleteMode,
    status: String,
    files_seen: u64,
    bytes_freed: i64,
    total_files: i64,
    current_path: Option<String>,
    errors: Vec<DeleteError>,
    started_at: u64,
    finished_at: Option<u64>,
    now: u64,
) -> (s: DeleteStatus)
    ensures
        s.delete_id == delete_id,
        s.mode == mode,
        s.status == status,
        s.files_seen == files_seen,
        s.bytes_freed == bytes_freed,
        s.total_files == total_files,
        s.current_path == current_path,
        s.errors == errors,
        s.started_at == started_at,
        s.finished_at == finished_at,
        s.elapsed_ms == elapsed_spec(started_at, finished_at, now),
{
    let elapsed = elapsed_ms(started_at, finished_at, now);
    DeleteStatus {
        delete_id,
        mode,
        status,
        files_seen,
        bytes_freed,
        total_files,
        current_path,
        errors,
        started_at,
        finished_at,
        elapsed_ms: elapsed,
    }
}

/// A delete request is accepted when it names at least one path; the run
/// then reports the number of paths as its total.
pub fn check_delete_request(paths: &Vec<String>) -> (r: Result<i64, AppError>)
    requires
        paths.len() <= i64::MAX,
    ensures
        paths.len() == 0 <==> r is Err,
        r matches Err(e) ==> e matches AppError::Scan(m) && m@ == "no paths to delete"@,
        r matches Ok(n) ==> n == paths.len(),
{
    if paths.len() == 0 {
        Err(AppError::Scan(String::from_str("no paths to delete")))
    } else {
        Ok(paths.len() as i64)
    }
}

/// The failure a worker records when its run ends in an error: no path, the
/// error's text as message.
pub fn worker_failure(e: &AppError) -> (d: DeleteError)
    ensures
        d.path@ == Seq::<char>::empty(),
        d.message@ == crate::error::error_text(*e),
{
    DeleteError { path: String::new(), message: e.message() }
}

/// A field-by-field copy of a list of errors.
pub fn copy_errors(v: &Vec<DeleteError>) -> (c: Vec<DeleteError>)
    ensures
        c@ == v@,
{
    let mut out: Vec<DeleteError> = Vec::new();
    let mut i: usize = 0;
    while i < v.len()
        invariant
            i <= v.len(),
            out@ == v@.subrange(0, i as int),
        decreases v.len() - i,
    {
        let e = &v[i];
        out.push(DeleteError { path: e.path.clone(), message: e.message.clone() });
        assert(out@ =~= v@.subrange(0, i + 1));
        i = i + 1;
    }
    assert(v@.subrange(0, v.len() as int) =~= v@);
    out
}

/// Sum of sizes with the wrapping addition of an atomic counter.
pub open spec fn wrapped_sum(sizes: Seq<i64>) -> i64
    decreases sizes.len(),
{
    if sizes.len() == 0 {
        0
    } else {
        vstd::wrapping::i64_specs::wrapping_add(wrapped_sum(sizes.drop_last()), sizes.last())
    }
}

/// Plain sum of sizes.
pub open spec fn total_size(sizes: Seq<i64>) -> int
    decreases sizes.len(),
{
    if sizes.len() == 0 {
        0
    } else {
        total_size(sizes.drop_last()) + sizes.last()
    }
}

/// Without overflow, the wrapping sum of non-negative sizes is their sum.
pub proof fn lemma_wrapped_sum_exact(sizes: Seq<i64>)
    requires
        forall|i: int| 0 <= i < sizes.len() ==> #[trigger] sizes[i] >= 0,
        total_size(sizes) <= i64::MAX,
    ensures
        wrapped_sum(sizes) == total_size(sizes),
        total_size(sizes) >= 0,
    decreases sizes.len(),
{
    if sizes.len() > 0 {
        let rest = sizes.drop_last();
        assert forall|i: int| 0 <= i < rest.len() implies #[trigger] rest[i] >= 0 by {
            assert(rest[i] == sizes[i]);
        }
        assert(sizes.last() == sizes[sizes.len() - 1]);
        lemma_total_size_nonneg(rest);
        lemma_wrapped_sum_exact(rest);
    }
}

proof fn lemma_total_size_nonneg(sizes: Seq<i64>)
    requires
        forall|i: int| 0 <= i < sizes.len() ==> #[trigger] sizes[i] >= 0,
    ensures
        total_size(sizes) >= 0,
    decreases sizes.len(),
{
    if sizes.len() > 0 {
        let rest = sizes.drop_last();
        assert forall|i: int| 0 <= i < rest.len() implies #[trigger] rest[i] >= 0 by {
            assert(rest[i] == sizes[i]);
        }
        assert(sizes.last() == sizes[sizes.len() - 1]);
        lemma_total_size_nonneg(rest);
    }
}

/// Deletion runs never touch anything outside the users' home directories:
/// the path, with its ".." resolved, lies under `/Users/`.
pub open spec fn deletable(path: Seq<char>) -> bool {
    lexically_within(path, "/Users/"@)
}

/// A path moved into quarantine: where it came from, where it is, its size.
#[derive(Debug, Clone)]
pub struct QuarantineRecord {
    pub original_path: String,
    pub quarantine_path: String,
    pub size: i64,
}

/// What a turn of a delete run does with the next path.
#[derive(Debug, Clone, Copy, PartialEq, Eq, Structural)]
pub enum Admission {
    /// Cancelled: the run stops before the path.
    Stop,
    /// Refused (outside `/Users/`): the run goes on with the next path.
    Refused,
    /// The path is to be disposed of.
    Admitted,
}

/// The index work that closes a delete run.
#[derive(Debug, Clone, Copy, PartialEq, Eq, Structural)]
pub enum EndStep {
    /// Write the quarantine records of the run.
    RecordQuarantine,
    /// Remove the deleted paths' rows from the index.
    PruneIndex,
}

/// How a delete run ends once its closing steps ran (`Ok(())` standing for a
/// step that was not needed): the recording's failure first, then the
/// prune's; without a failure, whether the run was cancelled.
pub fn end_result(recorded: Result<(), AppError>, pruned: Result<(), AppError>, cancelled: bool) -> (r: Result<bool, AppError>)
    ensures
        r == match recorded {
            Err(e) => Err::<bool, AppError>(e),
            Ok(()) => match pruned {
                Err(e) => Err::<bool, AppError>(e),
                Ok(()) => Ok::<bool, AppError>(cancelled),
            },
        },
{
    match recorded {
        Err(e) => Err(e),
        Ok(()) => match pruned {
            Err(e) => Err(e),
            Ok(()) => Ok(cancelled),
        },
    }
}

/// Bookkeeping of one delete run. The filesystem work for each path is done
/// outside; the run is told what happened and keeps the counters, the list
/// of deleted paths, the quarantine records and the errors.
pub struct DeleteRun {
    mode: DeleteMode,
    total: u64,
    quarantine_dir: String,
    now: i64,
    files_seen: u64,
    bytes_freed: i64,
    current_path: Option<String>,
    admitted: Option<String>,
    deleted: Vec<String>,
    records: Vec<QuarantineRecord>,
    errors: Vec<DeleteError>,
    sizes: Ghost<Seq<i64>>,
    items: Ghost<Seq<u64>>,
}

impl DeleteRun {
    pub closed spec fn mode_of(&self) -> DeleteMode {
        self.mode
    }

    pub closed spec fn seen(&self) -> u64 {
        self.files_seen
    }

    /// The number of paths the run was started with.
    pub closed spec fn total(&self) -> u64 {
        self.total
    }

    pub closed spec fn folder(&self) -> Seq<char> {
        self.quarantine_dir@
    }

    /// The run's start time, which stamps its quarantine names.
    pub closed spec fn started(&self) -> i64 {
        self.now
    }

    /// For each quarantine record, the number of its path within the run.
    pub closed spec fn record_items(&self) -> Seq<u64> {
        self.items@
    }

    pub closed spec fn freed(&self) -> i64 {
        self.bytes_freed
    }

    pub closed spec fn current(&self) -> Option<String> {
        self.current_path
    }

    /// The path admitted by `begin` whose outcome is awaited.
    pub closed spec fn in_progress(&self) -> Option<String> {
        self.admitted
    }

    pub closed spec fn deleted_paths(&self) -> Seq<String> {
        self.deleted@
    }

    /// Sizes credited for the deleted paths, index by index.
    pub closed spec fn deleted_sizes(&self) -> Seq<i64> {
        self.sizes@
    }

    pub closed spec fn quarantined(&self) -> Seq<QuarantineRecord> {
        self.records@
    }

    pub closed spec fn failures(&self) -> Seq<DeleteError> {
        self.errors@
    }

    /// At most the announced number of paths is seen; only paths under
    /// `/Users/` are deleted; the freed bytes are the (wrapping) sum of the
    /// sizes credited to the deleted paths; in quarantine mode each deleted
    /// path has its record, whose location carries the path's number within
    /// the run (numbers rise from record to record and never exceed the count
    /// of paths seen); in the other modes there are no records.
    pub closed spec fn wf(&self) -> bool {
        &&& self.files_seen <= self.total
        &&& self.sizes@.len() == self.deleted@.len()
        &&& self.bytes_freed == wrapped_sum(self.sizes@)
        &&& forall|i: int| 0 <= i < self.deleted@.len() ==> deletable(#[trigger] self.deleted@[i]@)
        &&& (self.admitted matches Some(p) ==> deletable(p@))
        &&& self.items@.len() == self.records@.len()
        &&& forall|i: int, j: int| 0 <= i < j < self.items@.len() ==> self.items@[i] < self.items@[j]
        &&& forall|i: int| 0 <= i < self.items@.len() ==> #[trigger] self.items@[i] <= self.files_seen
        &&& (self.admitted is Some ==> forall|i: int| 0 <= i < self.items@.len() ==> #[trigger] self.items@[i] < self.files_seen)
        &&& if self.mode == DeleteMode::Quarantine {
            &&& self.records@.len() == self.deleted@.len()
            &&& forall|i: int| 0 <= i < self.records@.len() ==> {
                &&& (#[trigger] self.records@[i]).original_path == self.deleted@[i]
                &&& self.records@[i].size == self.sizes@[i]
                &&& self.records@[i].quarantine_path@ == quarantine_path(
                    self.quarantine_dir@,
                    self.records@[i].original_path@,
                    self.now,
                    self.items@[i],
                )
                &&& (plain_dir(self.quarantine_dir@) ==> self.records@[i].quarantine_path@
                    == self.quarantine_dir@ + "/"@ + quarantine_name(
                    self.records@[i].original_path@,
                    self.now,
                    self.items@[i],
                ))
            }
        } else {
            self.records@.len() == 0
        }
    }

    /// A run over `total` paths in `mode`, started at `now`; quarantined
    /// paths go into `quarantine_dir`.
    pub fn new(mode: DeleteMode, total: u64, quarantine_dir: String, now: i64) -> (r: Self)
        ensures
            r.wf(),
            r.mode_of() == mode,
            r.total() == total,
            r.folder() == quarantine_dir@,
            r.started() == now,
            r.seen() == 0,
            r.freed() == 0,
            r.current() is None,
            r.in_progress() is None,
            r.deleted_paths() == Seq::<String>::empty(),
            r.quarantined() == Seq::<QuarantineRecord>::empty(),
            r.failures() == Seq::<DeleteError>::empty(),
    {
        DeleteRun {
            mode,
            total,
            quarantine_dir,
            now,
            files_seen: 0,
            bytes_freed: 0,
            current_path: None,
            admitted: None,
            deleted: Vec::new(),
            records: Vec::new(),
            errors: Vec::new(),
            sizes: Ghost(Seq::empty()),
            items: Ghost(Seq::empty()),
        }
    }

    /// The parts of a run fixed when it starts.
    pub open spec fn same_setup(&self, other: &Self) -> bool {
        &&& self.mode_of() == other.mode_of()
        &&& self.total() == other.total()
        &&& self.folder() == other.folder()
        &&& self.started() == other.started()
    }

    /// What starting on path `raw` does to the run `prev`: it becomes the
    /// current path and is counted; when `admitted` it awaits its outcome,
    /// otherwise it is refused with an error.
    pub open spec fn begun(&self, prev: &Self, raw: String, admitted: bool) -> bool {
        &&& self.same_setup(prev)
        &&& self.current() == Some(raw)
        &&& self.seen() == prev.seen() + 1
        &&& self.freed() == prev.freed()
        &&& self.deleted_paths() == prev.deleted_paths()
        &&& self.deleted_sizes() == prev.deleted_sizes()
        &&& self.quarantined() == prev.quarantined()
        &&& self.record_items() == prev.record_items()
        &&& if admitted {
            &&& self.in_progress() == Some(raw)
            &&& self.failures() == prev.failures()
        } else {
            &&& self.in_progress() is None
            &&& self.failures().len() == prev.failures().len() + 1
            &&& self.failures().drop_last() == prev.failures()
            &&& self.failures().last().path == raw
            &&& self.failures().last().message@ == "refusing to delete outside /Users"@
        }
    }

    /// Starts on the next path: it becomes the current path and is counted.
    /// A path outside `/Users/` (its ".." resolved) is refused with an error
    /// and `false`; otherwise it awaits its outcome and `true` is returned.
    pub fn begin(&mut self, raw: String) -> (admitted: bool)
        requires
            old(self).wf(),
            old(self).in_progress() is None,
            old(self).seen() < old(self).total(),
        ensures
            final(self).wf(),
            admitted == deletable(raw@),
            final(self).begun(old(self), raw, admitted),
    {
        self.current_path = Some(raw.clone());
        self.files_seen = self.files_seen + 1;
        if !lexically_under(raw.as_str(), "/Users/") {
            self.errors.push(DeleteError {
                path: raw,
                message: String::from_str("refusing to delete outside /Users"),
            });
            assert(self.errors@.drop_last() =~= old(self).errors@);
            return false;
        }
        self.admitted = Some(raw);
        true
    }

    /// One turn of the run over its paths: a requested cancel stops the run
    /// before `raw` and leaves it unchanged; otherwise the run begins `raw`
    /// (see `begin`).
    pub fn next_path(&mut self, raw: String, cancel_requested: bool) -> (a: Admission)
        requires
            old(self).wf(),
            old(self).in_progress() is None,
            old(self).seen() < old(self).total(),
        ensures
            final(self).wf(),
            cancel_requested ==> a == Admission::Stop && *final(self) == *old(self),
            !cancel_requested ==> {
                &&& a != Admission::Stop
                &&& (a == Admission::Admitted) == deletable(raw@)
                &&& final(self).begun(old(self), raw, a == Admission::Admitted)
            },
    {
        if cancel_requested {
            return Admission::Stop;
        }
        if self.begin(raw) {
            Admission::Admitted
        } else {
            Admission::Refused
        }
    }

    /// Where the admitted path goes when quarantined: its name carries the
    /// run's start time and the path's number within the run.
    pub fn quarantine_target(&self) -> (target: String)
        requires
            self.wf(),
            self.in_progress() is Some,
        ensures
            target@ == quarantine_path(self.folder(), self.in_progress()->0@, self.started(), self.seen()),
            plain_dir(self.folder()) ==> target@ == self.folder() + "/"@ + quarantine_name(
                self.in_progress()->0@,
                self.started(),
                self.seen(),
            ),
    {
        match &self.admitted {
            Some(p) => quarantine_dest(self.quarantine_dir.as_str(), p.as_str(), self.now, self.files_seen),
            None => String::new(),
        }
    }

    /// The admitted path could not be measured: it is skipped with the error
    /// `stat: <reason>`.
    pub fn stat_failed(&mut self, reason: &str)
        requires
            old(self).wf(),
            old(self).in_progress() is Some,
        ensures
            final(self).wf(),
            final(self).same_setup(old(self)),
            final(self).in_progress() is None,
            final(self).current() == old(self).current(),
            final(self).seen() == old(self).seen(),
            final(self).freed() == old(self).freed(),
            final(self).deleted_paths() == old(self).deleted_paths(),
            final(self).deleted_sizes() == old(self).deleted_sizes(),
            final(self).quarantined() == old(self).quarantined(),
            final(self).record_items() == old(self).record_items(),
            final(self).failures().len() == old(self).failures().len() + 1,
            final(self).failures().drop_last() == old(self).failures(),
            final(self).failures().last().path == old(self).in_progress()->0,
            final(self).failures().last().message@ == "stat: "@ + reason@,
    {
        let mut taken: Option<String> = None;
        std::mem::swap(&mut taken, &mut self.admitted);
        let path = match taken {
            Some(p) => p,
            None => String::new(),
        };
        self.errors.push(DeleteError {
            path,
            message: String::from_str("stat: ").concat(reason),
        });
    }

    /// Records what disposing of the admitted path did. `Ok(())` means it is
    /// gone (in quarantine mode: moved to `quarantine_target`): the path
    /// joins the deleted list, `size` is credited and, in quarantine mode,
    /// its record is kept. `Err(m)` records the failure message `m`.
    pub fn finish(&mut self, outcome: Result<(), String>, size: i64)
        requires
            old(self).wf(),
            old(self).in_progress() is Some,
        ensures
            final(self).wf(),
            final(self).same_setup(old(self)),
            final(self).in_progress() is None,
            final(self).current() == old(self).current(),
            final(self).seen() == old(self).seen(),
            match outcome {
                Ok(()) => {
                    &&& final(self).deleted_paths() == old(self).deleted_paths().push(
                        old(self).in_progress()->0,
                    )
                    &&& final(self).deleted_sizes() == old(self).deleted_sizes().push(size)
                    &&& final(self).freed() == vstd::wrapping::i64_specs::wrapping_add(
                        old(self).freed(),
                        size,
                    )
                    &&& final(self).failures() == old(self).failures()
                    &&& if old(self).mode_of() == DeleteMode::Quarantine {
                        &&& final(self).quarantined().len() == old(self).quarantined().len() + 1
                        &&& final(self).quarantined().drop_last() == old(self).quarantined()
                        &&& final(self).quarantined().last().original_path == old(self).in_progress()->0
                        &&& final(self).quarantined().last().quarantine_path@ == quarantine_path(
                            old(self).folder(),
                            old(self).in_progress()->0@,
                            old(self).started(),
                            old(self).seen(),
                        )
                        &&& final(self).quarantined().last().size == size
                        &&& final(self).record_items() == old(self).record_items().push(old(self).seen())
                    } else {
                        &&& final(self).quarantined() == old(self).quarantined()
                        &&& final(self).record_items() == old(self).record_items()
                    }
                },
                Err(m) => {
                    &&& final(self).deleted_paths() == old(self).deleted_paths()
                    &&& final(self).deleted_sizes() == old(self).deleted_sizes()
                    &&& final(self).freed() == old(self).freed()
                    &&& final(self).quarantined() == old(self).quarantined()
                    &&& final(self).record_items() == old(self).record_items()
                    &&& final(self).failures() == old(self).failures().push(
                        DeleteError { path: old(self).in_progress()->0, message: m },
                    )
                },
            },
    {
        let target = if self.mode == DeleteMode::Quarantine {
            self.quarantine_target()
        } else {
            String::new()
        };
        let mut taken: Option<String> = None;
        std::mem::swap(&mut taken, &mut self.admitted);
        let path = match taken {
            Some(p) => p,
            None => String::new(),
        };
        match outcome {
            Ok(()) => {
                let ghost old_items = self.items@;
                let ghost old_records = self.records@;
                if self.mode == DeleteMode::Quarantine {
                    self.records.push(
                        QuarantineRecord { original_path: path.clone(), quarantine_path: target, size },
                    );
                    proof {
                        self.items@ = self.items@.push(self.files_seen);
                        assert forall|i: int| 0 <= i < self.records@.len() implies
                            (#[trigger] self.records@[i]).original_path@ == self.deleted@.push(path)[i]@ by {
                            if i < old_records.len() {
                                assert(self.records@[i] == old_records[i]);
                            }
                        }
                    }
                }
                let ghost old_sizes = self.sizes@;
                self.bytes_freed = self.bytes_freed.wrapping_add(size);
                self.deleted.push(path);
                proof {
                    self.sizes@ = self.sizes@.push(size);
                    assert(self.sizes@.drop_last() =~= old_sizes);
                }
            },
            Err(m) => {
                self.errors.push(DeleteError { path, message: m });
            },
        }
    }

    pub fn files_seen(&self) -> (n: u64)
        ensures
            n == self.seen(),
    {
        self.files_seen
    }

    pub fn bytes_freed(&self) -> (n: i64)
        ensures
            n == self.freed(),
    {
        self.bytes_freed
    }

    pub fn current_path(&self) -> (p: Option<String>)
        ensures
            p == self.current(),
    {
        self.current_path.clone()
    }

    pub fn errors(&self) -> (e: Vec<DeleteError>)
        ensures
            e@ == self.failures(),
    {
        copy_errors(&self.errors)
    }

    /// The snapshot of the run for the UI: its counters and current path,
    /// its errors followed by `extra` (failures recorded outside the run),
    /// with `total` as the number of files. The count of files seen never
    /// exceeds that total.
    pub fn status(
        &self,
        delete_id: i64,
        status: String,
        extra: &Vec<DeleteError>,
        started_at: u64,
        finished_at: Option<u64>,
        now: u64,
    ) -> (s: DeleteStatus)
        requires
            self.wf(),
            self.total() <= i64::MAX,
        ensures
            s.delete_id == delete_id,
            s.mode == self.mode_of(),
            s.status == status,
            s.files_seen == self.seen(),
            s.total_files == self.total() as i64,
            s.files_seen <= s.total_files as u64,
            s.bytes_freed == self.freed(),
            s.current_path == self.current(),
            s.errors@ == self.failures() + extra@,
            s.started_at == started_at,
            s.finished_at == finished_at,
            s.elapsed_ms == elapsed_spec(started_at, finished_at, now),
    {
        let mut errors = copy_errors(&self.errors);
        let mut i: usize = 0;
        while i < extra.len()
            invariant
                i <= extra@.len(),
                errors@ == self.errors@ + extra@.subrange(0, i as int),
            decreases extra.len() - i,
        {
            let e = &extra[i];
            errors.push(DeleteError { path: e.path.clone(), message: e.message.clone() });
            assert(errors@ =~= self.errors@ + extra@.subrange(0, i + 1));
            i = i + 1;
        }
        assert(extra@.subrange(0, extra@.len() as int) =~= extra@);
        delete_status(
            delete_id,
            self.mode,
            status,
            self.files_seen,
            self.bytes_freed,
            self.total as i64,
            self.current_path.clone(),
            errors,
            started_at,
            finished_at,
            now,
        )
    }

    /// The deleted paths (for pruning from the index) and the quarantine
    /// records (for the quarantine table), in the order they were deleted.
    pub fn outcome(&self) -> (out: (Vec<String>, Vec<QuarantineRecord>))
        ensures
            out.0@ == self.deleted_paths(),
            out.1@ == self.quarantined(),
    {
        let mut deleted: Vec<String> = Vec::new();
        let mut i: usize = 0;
        while i < self.deleted.len()
            invariant
                i <= self.deleted@.len(),
                deleted@ == self.deleted@.subrange(0, i as int),
            decreases self.deleted.len() - i,
        {
            deleted.push(self.deleted[i].clone());
            assert(deleted@ =~= self.deleted@.subrange(0, i + 1));
            i = i + 1;
        }
        assert(self.deleted@.subrange(0, self.deleted@.len() as int) =~= self.deleted@);
        let mut records: Vec<QuarantineRecord> = Vec::new();
        let mut j: usize = 0;
        while j < self.records.len()
            invariant
                j <= self.records@.len(),
                records@ == self.records@.subrange(0, j as int),
            decreases self.records.len() - j,
        {
            let r = &self.records[j];
            records.push(QuarantineRecord {
                original_path: r.original_path.clone(),
                quarantine_path: r.quarantine_path.clone(),
                size: r.size,
            });
            assert(records@ =~= self.records@.subrange(0, j + 1));
            j = j + 1;
        }
        assert(self.records@.subrange(0, self.records@.len() as int) =~= self.records@);
        (deleted, records)
    }

    /// What a delete run guarantees at any point: every deleted path lies
    /// under `/Users/`, the freed bytes are the wrapping sum of the sizes
    /// credited to the deleted paths, and in quarantine mode the records
    /// list exactly the deleted paths with those sizes (none otherwise).
    pub proof fn lemma_run_accounts(&self)
        requires
            self.wf(),
        ensures
            self.seen() <= self.total(),
            self.deleted_sizes().len() == self.deleted_paths().len(),
            self.freed() == wrapped_sum(self.deleted_sizes()),
            forall|i: int| 0 <= i < self.deleted_paths().len() ==> deletable(#[trigger] self.deleted_paths()[i]@),
            self.mode_of() == DeleteMode::Quarantine ==> {
                &&& self.quarantined().len() == self.deleted_paths().len()
                &&& forall|i: int| 0 <= i < self.quarantined().len() ==> {
                    &&& (#[trigger] self.quarantined()[i]).original_path == self.deleted_paths()[i]
                    &&& self.quarantined()[i].size == self.deleted_sizes()[i]
                }
            },
            self.mode_of() != DeleteMode::Quarantine ==> self.quarantined().len() == 0,
    {
    }

    /// The closing steps, in order: the quarantine records are written
    /// before the index is pruned, so they are kept whatever the prune does;
    /// a step with nothing to do is left out.
    pub fn end_steps(&self) -> (steps: Vec<EndStep>)
        ensures
            steps@ == (if self.quarantined().len() > 0 {
                seq![EndStep::RecordQuarantine]
            } else {
                Seq::<EndStep>::empty()
            }) + (if self.deleted_paths().len() > 0 {
                seq![EndStep::PruneIndex]
            } else {
                Seq::<EndStep>::empty()
            }),
    {
        let mut steps: Vec<EndStep> = Vec::new();
        if self.records.len() > 0 {
            steps.push(EndStep::RecordQuarantine);
        }
        if self.deleted.len() > 0 {
            steps.push(EndStep::PruneIndex);
        }
        proof {
            let a = if self.records@.len() > 0 { seq![EndStep::RecordQuarantine] } else { Seq::<EndStep>::empty() };
            let b = if self.deleted@.len() > 0 { seq![EndStep::PruneIndex] } else { Seq::<EndStep>::empty() };
            assert(steps@ =~= a + b);
        }
        steps
    }

    /// Freed bytes are never negative when no size is and their sum fits:
    /// then they are exactly the sum of the sizes credited.
    pub proof fn lemma_freed_is_total(&self)
        requires
            self.wf(),
            forall|i: int| 0 <= i < self.deleted_sizes().len() ==> #[trigger] self.deleted_sizes()[i] >= 0,
            total_size(self.deleted_sizes()) <= i64::MAX,
        ensures
            self.freed() == total_size(self.deleted_sizes()),
            self.freed() >= 0,
    {
        lemma_wrapped_sum_exact(self.sizes@);
    }

    /// What a snapshot of a run shows: the files seen never exceed the
    /// number of paths; when no credited size is negative and their sum
    /// fits in an `i64`, the freed bytes are that sum and not negative.
    pub proof fn lemma_snapshot_bounds(&self, s: DeleteStatus)
        requires
            self.wf(),
            self.total() <= i64::MAX,
            s.files_seen == self.seen(),
            s.total_files == self.total() as i64,
            s.bytes_freed == self.freed(),
        ensures
            s.files_seen <= s.total_files,
            (forall|i: int| 0 <= i < self.deleted_sizes().len() ==> #[trigger] self.deleted_sizes()[i] >= 0)
                && total_size(self.deleted_sizes()) <= i64::MAX ==> s.bytes_freed == total_size(
                self.deleted_sizes(),
            ) && s.bytes_freed >= 0,
    {
        if (forall|i: int| 0 <= i < self.deleted_sizes().len() ==> #[trigger] self.deleted_sizes()[i] >= 0)
            && total_size(self.deleted_sizes()) <= i64::MAX {
            self.lemma_freed_is_total();
        }
    }

    /// Quarantined items of one run stay restorable: each record's location
    /// is its name (time stamp, number within the run, file name) joined to
    /// the quarantine folder, directly under it when the folder is plain, and
    /// no two records share a location.
    pub proof fn lemma_quarantine_locations_distinct(&self)
        requires
            self.wf(),
            self.mode_of() == DeleteMode::Quarantine,
        ensures
            forall|i: int| 0 <= i < self.quarantined().len() ==>
                (#[trigger] self.quarantined()[i]).quarantine_path@ == quarantine_path(
                    self.folder(),
                    self.quarantined()[i].original_path@,
                    self.started(),
                    self.record_items()[i],
                ),
            plain_dir(self.folder()) ==> forall|i: int| 0 <= i < self.quarantined().len() ==>
                (#[trigger] self.quarantined()[i]).quarantine_path@ == self.folder() + "/"@ + quarantine_name(
                    self.quarantined()[i].original_path@,
                    self.started(),
                    self.record_items()[i],
                ),
            forall|i: int, j: int| 0 <= i < self.quarantined().len() && 0 <= j < self.quarantined().len() && i != j
                ==> (#[trigger] self.quarantined()[i]).quarantine_path@ != (#[trigger] self.quarantined()[j]).quarantine_path@,
    {
        assert forall|i: int, j: int| 0 <= i < self.quarantined().len() && 0 <= j < self.quarantined().len() && i != j
            implies (#[trigger] self.quarantined()[i]).quarantine_path@ != (#[trigger] self.quarantined()[j]).quarantine_path@ by {
            if i < j {
                assert(self.items@[i] < self.items@[j]);
            } else {
                assert(self.items@[j] < self.items@[i]);
            }
            quarantine::lemma_quarantine_dest_distinct(
                self.quarantine_dir@,
                self.records@[i].original_path@,
                self.records@[j].original_path@,
                self.now,
                self.items@[i],
                self.items@[j],
            );
        }
    }
}

} // verus!
