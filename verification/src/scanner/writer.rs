//! The batching writer: drains walked entries, detects APFS clones by
//! `(dev, inode)` and turns batches into the rows inserted into the index.
//!
//! The receive loop itself waits on a channel with a timeout, so it runs
//! outside; each of its turns is one call of [`WriterState::step`].

use vstd::prelude::*;
use dashmap::DashSet;
use super::walk::Entry;

verus! {

/// Entries are written in transactions of this many rows.
pub const BATCH_SIZE: usize = 1000;

/// Every this many entries, the writer publishes the path it is at.
pub const PATH_REPORT_EVERY: u64 = 1000;

#[verifier::external_type_specification]
#[verifier::external_body]
#[verifier::reject_recursive_types(K)]
#[verifier::reject_recursive_types(S)]
pub struct ExDashSet<K, S>(DashSet<K, S>);

/// The `(dev, inode)` pairs a set of seen inodes holds.
pub uninterp spec fn inode_set(s: DashSet<(i64, i64)>) -> Set<(i64, i64)>;

/// `DashSet::new`: an empty set.
#[verifier::external_body]
fn new_inode_set() -> (s: DashSet<(i64, i64)>)
    ensures
        inode_set(s) == Set::<(i64, i64)>::empty(),
{
    DashSet::new()
}

/// `DashSet::insert`: adds the key; true when it was not present before.
#[verifier::external_body]
fn inode_set_insert(s: &mut DashSet<(i64, i64)>, key: (i64, i64)) -> (fresh: bool)
    ensures
        inode_set(*final(s)) == inode_set(*old(s)).insert(key),
        fresh == !inode_set(*old(s)).contains(key),
{
    s.insert(key)
}

/// `DashSet::contains`.
#[verifier::external_body]
fn inode_set_contains(s: &DashSet<(i64, i64)>, key: &(i64, i64)) -> (b: bool)
    ensures
        b == inode_set(*s).contains(*key),
{
    s.contains(key)
}

/// One row of the `files` table, as bound to its INSERT.
#[derive(Debug, Clone)]
pub struct FileRow {
    pub parent_path: Option<String>,
    pub name: String,
    pub full_path: String,
    pub depth: i64,
    pub is_dir: i64,
    pub is_symlink: i64,
    pub is_clone: i64,
    pub size: i64,
    pub logical_size: i64,
    pub inode: i64,
    pub dev: i64,
    pub mtime: i64,
    pub ctime: i64,
    pub btime: i64,
}

pub open spec fn inode_key(e: Entry) -> (i64, i64) {
    (e.dev, e.inode)
}

/// The inode set after the rows for `es` were written starting from `seen`:
/// every non-directory entry marks its `(dev, inode)`.
pub open spec fn marked_after(seen: Set<(i64, i64)>, es: Seq<Entry>) -> Set<(i64, i64)>
    decreases es.len(),
{
    if es.len() == 0 {
        seen
    } else {
        let before = marked_after(seen, es.drop_last());
        if es.last().is_dir {
            before
        } else {
            before.insert(inode_key(es.last()))
        }
    }
}

/// Entry `i` of `es` is a clone: a non-directory whose `(dev, inode)` was
/// already marked by an earlier entry or an earlier batch.
pub open spec fn is_clone_at(seen: Set<(i64, i64)>, es: Seq<Entry>, i: int) -> bool {
    !es[i].is_dir && marked_after(seen, es.take(i)).contains(inode_key(es[i]))
}

pub open spec fn flag(b: bool) -> i64 {
    if b { 1 } else { 0 }
}

/// The row written for entry `e` when `seen` holds the pairs already
/// marked: a non-directory whose pair is marked is a clone and stores size 0.
pub open spec fn entry_row_spec(seen: Set<(i64, i64)>, e: Entry, r: FileRow) -> bool {
    let clone = !e.is_dir && seen.contains(inode_key(e));
    &&& r.parent_path == e.parent_path
    &&& r.name == e.name
    &&& r.full_path == e.full_path
    &&& r.depth == e.depth
    &&& r.is_dir == flag(e.is_dir)
    &&& r.is_symlink == flag(e.is_symlink)
    &&& r.is_clone == flag(clone)
    &&& r.size == (if clone { 0 } else { e.size })
    &&& r.logical_size == e.logical_size
    &&& r.inode == e.inode
    &&& r.dev == e.dev
    &&& r.mtime == e.mtime
    &&& r.ctime == e.ctime
    &&& r.btime == e.btime
}

/// The row written for entry `i` of a batch: clones store size 0.
pub open spec fn row_for(seen: Set<(i64, i64)>, es: Seq<Entry>, i: int, r: FileRow) -> bool {
    entry_row_spec(marked_after(seen, es.take(i)), es[i], r)
}

pub open spec fn rows_for(seen: Set<(i64, i64)>, es: Seq<Entry>, rows: Seq<FileRow>) -> bool {
    &&& rows.len() == es.len()
    &&& forall|i: int| 0 <= i < es.len() ==> row_for(seen, es, i, #[trigger] rows[i])
}

/// Each row copies its entry: every column but `is_clone` and `size` holds
/// the entry's own field (the times in their own columns); a row marked as a
/// clone is a non-directory and stores size 0, any other row stores the
/// entry's size.
pub proof fn lemma_rows_copy_entries(seen: Set<(i64, i64)>, es: Seq<Entry>, rows: Seq<FileRow>)
    requires
        rows_for(seen, es, rows),
    ensures
        rows.len() == es.len(),
        forall|i: int| 0 <= i < es.len() ==> {
            &&& (#[trigger] rows[i]).parent_path == es[i].parent_path
            &&& rows[i].name == es[i].name
            &&& rows[i].full_path == es[i].full_path
            &&& rows[i].depth == es[i].depth
            &&& rows[i].is_dir == (if es[i].is_dir { 1i64 } else { 0i64 })
            &&& rows[i].is_symlink == (if es[i].is_symlink { 1i64 } else { 0i64 })
            &&& rows[i].logical_size == es[i].logical_size
            &&& rows[i].inode == es[i].inode
            &&& rows[i].dev == es[i].dev
            &&& rows[i].mtime == es[i].mtime
            &&& rows[i].ctime == es[i].ctime
            &&& rows[i].btime == es[i].btime
            &&& (rows[i].is_clone == 0 || rows[i].is_clone == 1)
            &&& (rows[i].is_clone == 1 ==> !es[i].is_dir && rows[i].size == 0)
            &&& (rows[i].is_clone == 0 ==> rows[i].size == es[i].size)
        },
{
    assert forall|i: int| 0 <= i < es.len() implies {
        &&& (#[trigger] rows[i]).parent_path == es[i].parent_path
        &&& rows[i].name == es[i].name
        &&& rows[i].full_path == es[i].full_path
        &&& rows[i].depth == es[i].depth
        &&& rows[i].is_dir == (if es[i].is_dir { 1i64 } else { 0i64 })
        &&& rows[i].is_symlink == (if es[i].is_symlink { 1i64 } else { 0i64 })
        &&& rows[i].logical_size == es[i].logical_size
        &&& rows[i].inode == es[i].inode
        &&& rows[i].dev == es[i].dev
        &&& rows[i].mtime == es[i].mtime
        &&& rows[i].ctime == es[i].ctime
        &&& rows[i].btime == es[i].btime
        &&& (rows[i].is_clone == 0 || rows[i].is_clone == 1)
        &&& (rows[i].is_clone == 1 ==> !es[i].is_dir && rows[i].size == 0)
        &&& (rows[i].is_clone == 0 ==> rows[i].size == es[i].size)
    } by {
        assert(row_for(seen, es, i, rows[i]));
    }
}

/// The set after marking one entry: non-directories mark their pair.
pub open spec fn mark_one(seen: Set<(i64, i64)>, e: Entry) -> Set<(i64, i64)> {
    if e.is_dir { seen } else { seen.insert(inode_key(e)) }
}

/// Marks one entry in the seen-inode set and returns its row.
fn entry_row(seen: &mut DashSet<(i64, i64)>, e: &Entry) -> (r: FileRow)
    ensures
        entry_row_spec(inode_set(*old(seen)), *e, r),
        inode_set(*final(seen)) == mark_one(inode_set(*old(seen)), *e),
{
    let key = (e.dev, e.inode);
    let clone = if e.is_dir {
        false
    } else {
        !inode_set_insert(seen, key)
    };
    FileRow {
        parent_path: e.parent_path.clone(),
        name: e.name.clone(),
        full_path: e.full_path.clone(),
        depth: e.depth,
        is_dir: if e.is_dir { 1 } else { 0 },
        is_symlink: if e.is_symlink { 1 } else { 0 },
        is_clone: if clone { 1 } else { 0 },
        size: if clone { 0 } else { e.size },
        logical_size: e.logical_size,
        inode: e.inode,
        dev: e.dev,
        mtime: e.mtime,
        ctime: e.ctime,
        btime: e.btime,
    }
}

proof fn lemma_marked_after_push(seen: Set<(i64, i64)>, es: Seq<Entry>, e: Entry)
    ensures
        marked_after(seen, es.push(e)) == mark_one(marked_after(seen, es), e),
        es.push(e).take(es.len() as int) == es,
{
    assert(es.push(e).drop_last() =~= es);
    assert(es.push(e).take(es.len() as int) =~= es);
}

/// Appending an entry to a batch extends its rows by that entry's row.
proof fn lemma_rows_for_push(seen: Set<(i64, i64)>, es: Seq<Entry>, rows: Seq<FileRow>, e: Entry, r: FileRow)
    requires
        rows_for(seen, es, rows),
        entry_row_spec(marked_after(seen, es), e, r),
    ensures
        rows_for(seen, es.push(e), rows.push(r)),
{
    let es2 = es.push(e);
    lemma_marked_after_push(seen, es, e);
    assert forall|i: int| 0 <= i < es2.len() implies row_for(seen, es2, i, #[trigger] rows.push(r)[i]) by {
        if i < es.len() {
            assert(es2.take(i) =~= es.take(i));
            assert(es2[i] == es[i]);
            assert(row_for(seen, es, i, rows[i]));
        }
    }
}

/// Marks a batch's entries in the seen-inode set and returns the rows to
/// insert, in order: the first occurrence of a `(dev, inode)` keeps its
/// bytes, later ones are clones with size 0. Directories are never clones.
pub fn batch_rows(seen: &mut DashSet<(i64, i64)>, entries: Vec<Entry>) -> (rows: Vec<FileRow>)
    ensures
        rows_for(inode_set(*old(seen)), entries@, rows@),
        inode_set(*final(seen)) == marked_after(inode_set(*old(seen)), entries@),
{
    let ghost seen0 = inode_set(*seen);
    let mut rows: Vec<FileRow> = Vec::new();
    let n = entries.len();
    let mut i: usize = 0;
    while i < n
        invariant
            n == entries@.len(),
            i <= n,
            inode_set(*seen) == marked_after(seen0, entries@.take(i as int)),
            rows_for(seen0, entries@.take(i as int), rows@),
        decreases n - i,
    {
        let ghost pre = entries@.take(i as int);
        let row = entry_row(seen, &entries[i]);
        proof {
            lemma_rows_for_push(seen0, pre, rows@, entries@[i as int], row);
            lemma_marked_after_push(seen0, pre, entries@[i as int]);
            assert(pre.push(entries@[i as int]) =~= entries@.take(i + 1));
        }
        rows.push(row);
        i = i + 1;
    }
    assert(entries@.take(n as int) =~= entries@);
    rows
}


/// Writing the rows of `a` and then those of `b` is writing the rows of
/// `a + b`: clone detection carries over between batches exactly as if the
/// entries had come in one batch.
pub proof fn lemma_batches_compose(
    seen: Set<(i64, i64)>,
    a: Seq<Entry>,
    b: Seq<Entry>,
    ra: Seq<FileRow>,
    rb: Seq<FileRow>,
)
    requires
        rows_for(seen, a, ra),
        rows_for(marked_after(seen, a), b, rb),
    ensures
        marked_after(seen, a + b) == marked_after(marked_after(seen, a), b),
        rows_for(seen, a + b, ra + rb),
{
    lemma_marked_after_append(seen, a, b);
    let ab = a + b;
    assert forall|i: int| 0 <= i < ab.len() implies row_for(seen, ab, i, #[trigger] (ra + rb)[i]) by {
        if i < a.len() {
            assert(ab.take(i) =~= a.take(i));
            assert(ab[i] == a[i]);
            assert(row_for(seen, a, i, ra[i]));
        } else {
            let j = i - a.len();
            assert(ab.take(i) =~= a + b.take(j));
            lemma_marked_after_append(seen, a, b.take(j));
            assert(ab[i] == b[j]);
            assert(row_for(marked_after(seen, a), b, j, rb[j]));
        }
    }
}

proof fn lemma_marked_after_append(seen: Set<(i64, i64)>, a: Seq<Entry>, b: Seq<Entry>)
    ensures
        marked_after(seen, a + b) == marked_after(marked_after(seen, a), b),
    decreases b.len(),
{
    if b.len() == 0 {
        assert(a + b =~= a);
    } else {
        assert((a + b).drop_last() =~= a + b.drop_last());
        lemma_marked_after_append(seen, a, b.drop_last());
    }
}

/// A written set only grows, and it holds exactly the starting pairs plus
/// those of the non-directory entries written.
pub proof fn lemma_marked_after_contents(seen: Set<(i64, i64)>, es: Seq<Entry>, key: (i64, i64))
    ensures
        marked_after(seen, es).contains(key) <==> (seen.contains(key) || exists|i: int|
            0 <= i < es.len() && !es[i].is_dir && #[trigger] inode_key(es[i]) == key),
    decreases es.len(),
{
    if es.len() > 0 {
        let init = es.drop_last();
        lemma_marked_after_contents(seen, init, key);
        if exists|i: int| 0 <= i < es.len() && !es[i].is_dir && #[trigger] inode_key(es[i]) == key {
            let i = choose|i: int| 0 <= i < es.len() && !es[i].is_dir && #[trigger] inode_key(es[i]) == key;
            if i < init.len() {
                assert(init[i] == es[i]);
            }
        }
        if exists|i: int| 0 <= i < init.len() && !init[i].is_dir && #[trigger] inode_key(init[i]) == key {
            let i = choose|i: int| 0 <= i < init.len() && !init[i].is_dir && #[trigger] inode_key(init[i]) == key;
            assert(es[i] == init[i]);
        }
    }
}

/// Clone awareness: among the non-directory entries of a scan, only the
/// first occurrence of a `(dev, inode)` pair keeps its bytes; every later
/// occurrence is written as a clone of size 0. A pair not met before is
/// never a clone.
pub proof fn lemma_first_occurrence_keeps_bytes(seen: Set<(i64, i64)>, es: Seq<Entry>, j: int)
    requires
        0 <= j < es.len(),
    ensures
        is_clone_at(seen, es, j) <==> (!es[j].is_dir && (seen.contains(inode_key(es[j])) || exists|i: int|
            0 <= i < j && !es[i].is_dir && #[trigger] inode_key(es[i]) == inode_key(es[j]))),
{
    let pre = es.take(j);
    lemma_marked_after_contents(seen, pre, inode_key(es[j]));
    if exists|i: int| 0 <= i < j && !es[i].is_dir && #[trigger] inode_key(es[i]) == inode_key(es[j]) {
        let i = choose|i: int| 0 <= i < j && !es[i].is_dir && #[trigger] inode_key(es[i]) == inode_key(es[j]);
        assert(pre[i] == es[i]);
    }
    if exists|i: int| 0 <= i < pre.len() && !pre[i].is_dir && #[trigger] inode_key(pre[i]) == inode_key(es[j]) {
        let i = choose|i: int| 0 <= i < pre.len() && !pre[i].is_dir && #[trigger] inode_key(pre[i]) == inode_key(es[j]);
        assert(es[i] == pre[i]);
    }
}

/// Bytes a row stores, as the unsigned counter adds them.
pub open spec fn row_bytes(rows: Seq<FileRow>) -> int
    decreases rows.len(),
{
    if rows.len() == 0 {
        0
    } else {
        row_bytes(rows.drop_last()) + (rows.last().size as u64) as int
    }
}

/// The bytes of a stream of entries counted once per `(dev, inode)`: each
/// entry adds its size unless it is a clone of an earlier one.
pub open spec fn stream_bytes(es: Seq<Entry>) -> int
    decreases es.len(),
{
    if es.len() == 0 {
        0
    } else {
        let i = es.len() - 1;
        stream_bytes(es.drop_last()) + (if is_clone_at(Set::empty(), es, i) {
            0
        } else {
            (es.last().size as u64) as int
        })
    }
}

/// The bytes counted for a stream are the bytes its rows store.
pub proof fn lemma_stream_bytes_are_row_bytes(es: Seq<Entry>, rows: Seq<FileRow>)
    requires
        rows_for(Set::empty(), es, rows),
    ensures
        stream_bytes(es) == row_bytes(rows),
    decreases es.len(),
{
    if es.len() > 0 {
        let n = es.len() - 1;
        let init = es.drop_last();
        assert forall|i: int| 0 <= i < init.len() implies row_for(Set::empty(), init, i, #[trigger] rows.drop_last()[i]) by {
            assert(init.take(i) =~= es.take(i));
            assert(row_for(Set::empty(), es, i, rows[i]));
        }
        lemma_stream_bytes_are_row_bytes(init, rows.drop_last());
        assert(row_for(Set::empty(), es, n, rows[n]));
    }
}

/// What the receive loop got from the walker channel in one turn.
pub enum WriterEvent {
    Received(Entry),
    TimedOut,
    /// The walker finished (or stopped) and dropped its sender.
    Disconnected,
}

/// What the receive loop is to do after one turn.
pub struct WriterStep {
    /// Rows to insert now, in one transaction (empty: nothing to write).
    pub rows: Vec<FileRow>,
    /// A path to publish as the current one.
    pub report_path: Option<String>,
    /// Whether the file and byte counters are to be published now.
    pub publish_counts: bool,
    /// Whether the loop ends.
    pub stop: bool,
}

/// What the scan run's row is updated with once the writer stops.
#[derive(Debug, Clone, Copy)]
pub struct WriterFinish {
    pub status: &'static str,
    pub file_count: i64,
    pub bytes_seen: i64,
    pub aggregate: bool,
}

/// State of the writer between turns of its receive loop. Each received
/// entry's row is decided on arrival, so the byte counter and the rows agree
/// on which entries are clones.
pub struct WriterState {
    batch: Vec<FileRow>,
    seen: DashSet<(i64, i64)>,
    total_files: u64,
    total_bytes: u64,
    cancelled: bool,
    stopped: bool,
    received: Ghost<Seq<Entry>>,
    written: Ghost<Seq<Entry>>,
    pending: Ghost<Seq<Entry>>,
}

impl WriterState {
    /// Entries received whose rows are not yet handed out.
    pub closed spec fn pending(&self) -> Seq<Entry> {
        self.pending@
    }

    /// The rows of the pending entries.
    pub closed spec fn pending_rows(&self) -> Seq<FileRow> {
        self.batch@
    }

    /// `(dev, inode)` pairs marked by every non-directory received so far.
    pub closed spec fn seen(&self) -> Set<(i64, i64)> {
        inode_set(self.seen)
    }

    /// Every entry received so far, in order.
    pub closed spec fn received(&self) -> Seq<Entry> {
        self.received@
    }

    /// Every entry whose row was handed out for insertion, in order.
    pub closed spec fn written(&self) -> Seq<Entry> {
        self.written@
    }

    /// The pairs marked by the written entries.
    pub open spec fn written_seen(&self) -> Set<(i64, i64)> {
        marked_after(Set::empty(), self.written())
    }

    pub closed spec fn files(&self) -> u64 {
        self.total_files
    }

    pub closed spec fn bytes(&self) -> u64 {
        self.total_bytes
    }

    pub closed spec fn is_cancelled(&self) -> bool {
        self.cancelled
    }

    pub closed spec fn is_stopped(&self) -> bool {
        self.stopped
    }

    /// The writer's bookkeeping is consistent: the received entries are the
    /// written ones followed by the pending ones, the pending rows are those
    /// entries' rows, the seen set is what all received entries marked, and
    /// the byte counter counts each `(dev, inode)` once.
    pub closed spec fn wf(&self) -> bool {
        &&& self.consistent()
        &&& self.pending@.len() < BATCH_SIZE
    }

    /// Everything `wf` asks but the bound on the pending entries.
    closed spec fn consistent(&self) -> bool {
        &&& self.received@ == self.written@ + self.pending@
        &&& self.batch@.len() == self.pending@.len()
        &&& rows_for(marked_after(Set::empty(), self.written@), self.pending@, self.batch@)
        &&& inode_set(self.seen) == marked_after(Set::empty(), self.received@)
        &&& self.total_files == self.received@.len()
        &&& self.total_bytes == stream_bytes(self.received@)
        &&& self.cancelled ==> self.stopped
    }

    /// The writer's counters account for its entries: every received entry
    /// is counted, received entries are the written ones followed by the
    /// pending ones, the seen set is what all of them marked, and the bytes
    /// are the stream's bytes counted once per `(dev, inode)`.
    pub proof fn lemma_accounts(&self)
        requires
            self.wf(),
        ensures
            self.files() == self.received().len(),
            self.received() == self.written() + self.pending(),
            self.seen() == marked_after(Set::empty(), self.received()),
            rows_for(self.written_seen(), self.pending(), self.pending_rows()),
            self.bytes() == stream_bytes(self.received()),
            self.pending().len() < BATCH_SIZE,
            self.is_cancelled() ==> self.is_stopped(),
    {
    }

    /// The byte counter equals the bytes stored by the rows of everything
    /// received: `rows` are those rows (for instance the rows handed out,
    /// followed by the pending ones).
    pub proof fn lemma_bytes_match_rows(&self, rows: Seq<FileRow>)
        requires
            self.wf(),
            rows_for(Set::empty(), self.received(), rows),
        ensures
            self.bytes() == row_bytes(rows),
    {
        lemma_stream_bytes_are_row_bytes(self.received@, rows);
    }

    /// Once nothing is pending (as after the walker finished), every entry
    /// received has had its row handed out.
    pub proof fn lemma_drained_writes_everything(&self)
        requires
            self.wf(),
            self.pending().len() == 0,
        ensures
            self.written() == self.received(),
            self.seen() == marked_after(Set::empty(), self.received()),
    {
        assert(self.received@ =~= self.written@);
    }

    pub fn new() -> (w: Self)
        ensures
            w.wf(),
            w.pending() == Seq::<Entry>::empty(),
            w.received() == Seq::<Entry>::empty(),
            w.written() == Seq::<Entry>::empty(),
            w.seen() == Set::<(i64, i64)>::empty(),
            w.files() == 0,
            w.bytes() == 0,
            !w.is_cancelled(),
            !w.is_stopped(),
    {
        let w = WriterState {
            batch: Vec::new(),
            seen: new_inode_set(),
            total_files: 0,
            total_bytes: 0,
            cancelled: false,
            stopped: false,
            received: Ghost(Seq::empty()),
            written: Ghost(Seq::empty()),
            pending: Ghost(Seq::empty()),
        };
        assert(w.received@ =~= w.written@ + w.pending@);
        w
    }

    pub fn total_files(&self) -> (n: u64)
        ensures
            n == self.files(),
    {
        self.total_files
    }

    pub fn total_bytes(&self) -> (n: u64)
        ensures
            n == self.bytes(),
    {
        self.total_bytes
    }

    pub fn cancelled(&self) -> (c: bool)
        ensures
            c == self.is_cancelled(),
    {
        self.cancelled
    }

    /// Hands out the pending rows; the pending entries become written.
    fn drain(&mut self) -> (rows: Vec<FileRow>)
        requires
            old(self).consistent(),
        ensures
            final(self).wf(),
            rows@ == old(self).pending_rows(),
            final(self).pending() == Seq::<Entry>::empty(),
            final(self).written() == old(self).written() + old(self).pending(),
            final(self).received() == old(self).received(),
            final(self).seen() == old(self).seen(),
            final(self).files() == old(self).files(),
            final(self).bytes() == old(self).bytes(),
            final(self).is_cancelled() == old(self).is_cancelled(),
            final(self).is_stopped() == old(self).is_stopped(),
    {
        let mut rows: Vec<FileRow> = Vec::new();
        std::mem::swap(&mut rows, &mut self.batch);
        proof {
            lemma_marked_after_append(Set::empty(), self.written@, self.pending@);
            self.written@ = self.written@ + self.pending@;
            self.pending@ = Seq::empty();
            assert(self.received@ =~= self.written@ + self.pending@);
        }
        rows
    }

    /// One turn of the receive loop. `cancel_requested` is the cancel flag as
    /// read right after the receive returned.
    ///
    /// - A requested cancel ends the loop as cancelled, whatever the event;
    ///   pending rows are dropped.
    /// - Disconnected (not cancelled): the pending rows are handed out and
    ///   the loop ends.
    /// - A received entry is counted, its row decided (a clone when a
    ///   non-directory with its `(dev, inode)` came before, in any batch) and
    ///   its stored bytes added; a full batch is handed out.
    pub fn step(&mut self, event: WriterEvent, cancel_requested: bool) -> (out: WriterStep)
        requires
            old(self).wf(),
            !old(self).is_stopped(),
            event matches WriterEvent::Received(e) ==> {
                &&& old(self).files() < u64::MAX
                &&& !(!e.is_dir && old(self).seen().contains(inode_key(e))) ==> old(self).bytes() + (
                e.size as u64) <= u64::MAX
            },
        ensures
            final(self).wf(),
            final(self).is_stopped() == out.stop,
            cancel_requested ==> {
                &&& out.stop
                &&& final(self).is_cancelled()
                &&& out.rows@.len() == 0
                &&& final(self).pending() == old(self).pending()
                &&& final(self).written() == old(self).written()
                &&& final(self).seen() == old(self).seen()
                &&& final(self).received() == old(self).received()
                &&& final(self).files() == old(self).files()
                &&& final(self).bytes() == old(self).bytes()
                &&& out.report_path is None
                &&& !out.publish_counts
            },
            !cancel_requested ==> !final(self).is_cancelled() && match event {
                WriterEvent::Disconnected => {
                    &&& out.stop
                    &&& out.rows@ == old(self).pending_rows()
                    &&& rows_for(old(self).written_seen(), old(self).pending(), out.rows@)
                    &&& final(self).pending() == Seq::<Entry>::empty()
                    &&& final(self).written() == old(self).written() + old(self).pending()
                    &&& final(self).seen() == old(self).seen()
                    &&& final(self).received() == old(self).received()
                    &&& final(self).files() == old(self).files()
                    &&& final(self).bytes() == old(self).bytes()
                    &&& out.report_path is None
                    &&& !out.publish_counts
                },
                WriterEvent::TimedOut => {
                    &&& !out.stop
                    &&& out.rows@.len() == 0
                    &&& final(self).pending() == old(self).pending()
                    &&& final(self).written() == old(self).written()
                    &&& final(self).seen() == old(self).seen()
                    &&& final(self).received() == old(self).received()
                    &&& final(self).files() == old(self).files()
                    &&& final(self).bytes() == old(self).bytes()
                    &&& out.report_path is None
                    &&& !out.publish_counts
                },
                WriterEvent::Received(e) => {
                    let queued = old(self).pending().push(e);
                    &&& !out.stop
                    &&& final(self).received() == old(self).received().push(e)
                    &&& final(self).seen() == mark_one(old(self).seen(), e)
                    &&& final(self).files() == old(self).files() + 1
                    &&& final(self).bytes() == old(self).bytes() + (if !e.is_dir && old(self).seen().contains(
                        inode_key(e),
                    ) {
                        0
                    } else {
                        e.size as u64
                    })
                    &&& (if final(self).files() % PATH_REPORT_EVERY == 0 {
                        out.report_path == Some(e.full_path)
                    } else {
                        out.report_path is None
                    })
                    &&& if queued.len() >= BATCH_SIZE {
                        &&& rows_for(old(self).written_seen(), queued, out.rows@)
                        &&& final(self).pending() == Seq::<Entry>::empty()
                        &&& final(self).written() == old(self).written() + queued
                        &&& out.publish_counts
                    } else {
                        &&& out.rows@.len() == 0
                        &&& final(self).pending() == queued
                        &&& final(self).written() == old(self).written()
                        &&& !out.publish_counts
                    }
                },
            },
    {
        if cancel_requested {
            self.cancelled = true;
            self.stopped = true;
            return WriterStep { rows: Vec::new(), report_path: None, publish_counts: false, stop: true };
        }
        match event {
            WriterEvent::Disconnected => {
                let rows = self.drain();
                self.stopped = true;
                WriterStep { rows, report_path: None, publish_counts: false, stop: true }
            },
            WriterEvent::TimedOut => {
                WriterStep { rows: Vec::new(), report_path: None, publish_counts: false, stop: false }
            },
            WriterEvent::Received(e) => {
                self.total_files = self.total_files + 1;
                let report_path = if self.total_files % PATH_REPORT_EVERY == 0 {
                    Some(e.full_path.clone())
                } else {
                    None
                };
                let ghost old_received = self.received@;
                let ghost old_written = self.written@;
                let ghost old_pending = self.pending@;
                let ghost old_rows = self.batch@;
                proof {
                    lemma_marked_after_append(Set::empty(), old_written, old_pending);
                }
                let row = entry_row(&mut self.seen, &e);
                self.total_bytes = self.total_bytes + (row.size as u64);
                self.batch.push(row);
                proof {
                    lemma_rows_for_push(
                        marked_after(Set::empty(), old_written),
                        old_pending,
                        old_rows,
                        e,
                        row,
                    );
                    lemma_marked_after_push(Set::empty(), old_received, e);
                    self.received@ = old_received.push(e);
                    self.pending@ = old_pending.push(e);
                    assert(self.received@ =~= self.written@ + self.pending@);
                    assert(self.received@.drop_last() =~= old_received);
                    assert(self.received@.take(old_received.len() as int) =~= old_received);
                }
                if self.batch.len() >= BATCH_SIZE {
                    let rows = self.drain();
                    WriterStep { rows, report_path, publish_counts: true, stop: false }
                } else {
                    WriterStep { rows: Vec::new(), report_path, publish_counts: false, stop: false }
                }
            },
        }
    }

    /// How the scan run is finalized: its recorded status, file count and
    /// byte count, and whether recursive sizes are aggregated (not for a
    /// cancelled, incomplete index).
    pub fn finish_plan(&self) -> (plan: WriterFinish)
        ensures
            plan.status@ == (if self.is_cancelled() { "cancelled"@ } else { "done"@ }),
            plan.file_count == crate::scanner::walk::wrap_i64(self.files()),
            plan.bytes_seen == crate::scanner::walk::wrap_i64(self.bytes()),
            plan.aggregate == !self.is_cancelled(),
    {
        WriterFinish {
            status: if self.cancelled { "cancelled" } else { "done" },
            file_count: crate::scanner::walk::as_signed(self.total_files),
            bytes_seen: crate::scanner::walk::as_signed(self.total_bytes),
            aggregate: !self.cancelled,
        }
    }

    /// Rows still pending once the loop ended: handed out only when the run
    /// was not cancelled.
    pub fn final_rows(&mut self) -> (rows: Vec<FileRow>)
        requires
            old(self).wf(),
        ensures
            final(self).wf(),
            final(self).files() == old(self).files(),
            final(self).bytes() == old(self).bytes(),
            final(self).is_cancelled() == old(self).is_cancelled(),
            final(self).is_stopped() == old(self).is_stopped(),
            final(self).received() == old(self).received(),
            final(self).seen() == old(self).seen(),
            if old(self).pending().len() > 0 && !old(self).is_cancelled() {
                &&& rows_for(old(self).written_seen(), old(self).pending(), rows@)
                &&& final(self).pending() == Seq::<Entry>::empty()
                &&& final(self).written() == old(self).written() + old(self).pending()
            } else {
                &&& rows@.len() == 0
                &&& final(self).pending() == old(self).pending()
                &&& final(self).written() == old(self).written()
            },
    {
        if self.batch.len() > 0 && !self.cancelled {
            self.drain()
        } else {
            Vec::new()
        }
    }
}

} // verus!
