//! Schema migrations are applied in order from the stored version up to the
//! current one; each step is idempotent.

use vstd::prelude::*;

verus! {

pub const CURRENT_VERSION: i32 = 3;

/// The migration steps (target versions) to apply to a database whose
/// stored version is `current`, in order.
pub open spec fn pending_spec(current: i32) -> Seq<i32> {
    if current < 1 {
        seq![1i32, 2i32, 3i32]
    } else if current < 2 {
        seq![2i32, 3i32]
    } else if current < 3 {
        seq![3i32]
    } else {
        Seq::empty()
    }
}

pub fn pending_migrations(current: i32) -> (steps: Vec<i32>)
    ensures
        steps@ == pending_spec(current),
        forall|k: int| 0 <= k < steps@.len() ==> current < #[trigger] steps@[k] <= CURRENT_VERSION,
{
    let mut steps: Vec<i32> = Vec::new();
    if current < 1 {
        steps.push(1);
    }
    if current < 2 {
        steps.push(2);
    }
    if current < 3 {
        steps.push(3);
    }
    assert(steps@ =~= pending_spec(current));
    steps
}

/// Migrating brings every database to the current version, applies each
/// step (versions 1 and up) above the stored version exactly once and in increasing order, and
/// applies nothing to an up-to-date one.
pub proof fn lemma_migrations_reach_current(current: i32)
    ensures
        pending_spec(current).len() > 0 ==> pending_spec(current).last() == CURRENT_VERSION,
        forall|v: i32| 1 <= v && current < v <= CURRENT_VERSION <==> pending_spec(current).contains(v),
        forall|i: int, j: int| 0 <= i < j < pending_spec(current).len() ==> pending_spec(current)[i] < pending_spec(current)[j],
        current >= CURRENT_VERSION ==> pending_spec(current).len() == 0,
{
    assert forall|v: i32| 1 <= v && current < v <= CURRENT_VERSION implies pending_spec(current).contains(v) by {
        if current < 1 {
            if v == 1 { assert(pending_spec(current)[0] == v); }
            else if v == 2 { assert(pending_spec(current)[1] == v); }
            else { assert(pending_spec(current)[2] == v); }
        } else if current < 2 {
            if v == 2 { assert(pending_spec(current)[0] == v); }
            else { assert(pending_spec(current)[1] == v); }
        } else {
            assert(pending_spec(current)[0] == v);
        }
    }
}

/// The statements of migration step `step` (1 to the current version).
pub open spec fn migration_text(step: i32) -> Seq<char> {
    if step == 1 {
        "
    CREATE TABLE IF NOT EXISTS scan_runs (
        id           INTEGER PRIMARY KEY,
        started_at   INTEGER NOT NULL,
        finished_at  INTEGER,
        root_path    TEXT    NOT NULL,
        file_count   INTEGER NOT NULL DEFAULT 0,
        bytes_seen   INTEGER NOT NULL DEFAULT 0,
        status       TEXT    NOT NULL
    );

    CREATE TABLE IF NOT EXISTS files (
        id              INTEGER PRIMARY KEY,
        scan_id         INTEGER NOT NULL REFERENCES scan_runs(id) ON DELETE CASCADE,
        parent_path     TEXT,
        name            TEXT    NOT NULL,
        full_path       TEXT    NOT NULL,
        depth           INTEGER NOT NULL,
        is_dir          INTEGER NOT NULL,
        is_symlink      INTEGER NOT NULL,
        is_clone        INTEGER NOT NULL DEFAULT 0,
        size            INTEGER NOT NULL,
        recursive_size  INTEGER NOT NULL DEFAULT 0,
        logical_size    INTEGER NOT NULL,
        inode           INTEGER NOT NULL,
        dev             INTEGER NOT NULL,
        mtime           INTEGER,
        ctime           INTEGER,
        btime           INTEGER
    );

    CREATE INDEX IF NOT EXISTS files_parent_path ON files(scan_id, parent_path);
    CREATE INDEX IF NOT EXISTS files_full_path   ON files(scan_id, full_path);
    CREATE INDEX IF NOT EXISTS files_size        ON files(scan_id, recursive_size DESC);
    CREATE INDEX IF NOT EXISTS files_depth       ON files(scan_id, depth);
    CREATE INDEX IF NOT EXISTS files_dev_inode   ON files(scan_id, dev, inode);

    CREATE TABLE IF NOT EXISTS quarantine (
        id              INTEGER PRIMARY KEY,
        original_path   TEXT    NOT NULL,
        quarantine_path TEXT    NOT NULL,
        deleted_at      INTEGER NOT NULL,
        expires_at      INTEGER NOT NULL,
        size            INTEGER NOT NULL
    );
"@
    } else if step == 2 {
        "
    CREATE INDEX IF NOT EXISTS files_own_size_files
        ON files(scan_id, size DESC)
        WHERE is_dir = 0 AND is_clone = 0;
"@
    } else {
        "
    CREATE INDEX IF NOT EXISTS files_drill_in
        ON files(scan_id, parent_path, recursive_size DESC, is_dir);
"@
    }
}

/// The statements that bring a database from version `step - 1` to `step`.
pub fn migration_sql(step: i32) -> (sql: &'static str)
    requires
        1 <= step <= CURRENT_VERSION,
    ensures
        sql@ == migration_text(step),
{
    if step == 1 {
        "
    CREATE TABLE IF NOT EXISTS scan_runs (
        id           INTEGER PRIMARY KEY,
        started_at   INTEGER NOT NULL,
        finished_at  INTEGER,
        root_path    TEXT    NOT NULL,
        file_count   INTEGER NOT NULL DEFAULT 0,
        bytes_seen   INTEGER NOT NULL DEFAULT 0,
        status       TEXT    NOT NULL
    );

    CREATE TABLE IF NOT EXISTS files (
        id              INTEGER PRIMARY KEY,
        scan_id         INTEGER NOT NULL REFERENCES scan_runs(id) ON DELETE CASCADE,
        parent_path     TEXT,
        name            TEXT    NOT NULL,
        full_path       TEXT    NOT NULL,
        depth           INTEGER NOT NULL,
        is_dir          INTEGER NOT NULL,
        is_symlink      INTEGER NOT NULL,
        is_clone        INTEGER NOT NULL DEFAULT 0,
        size            INTEGER NOT NULL,
        recursive_size  INTEGER NOT NULL DEFAULT 0,
        logical_size    INTEGER NOT NULL,
        inode           INTEGER NOT NULL,
        dev             INTEGER NOT NULL,
        mtime           INTEGER,
        ctime           INTEGER,
        btime           INTEGER
    );

    CREATE INDEX IF NOT EXISTS files_parent_path ON files(scan_id, parent_path);
    CREATE INDEX IF NOT EXISTS files_full_path   ON files(scan_id, full_path);
    CREATE INDEX IF NOT EXISTS files_size        ON files(scan_id, recursive_size DESC);
    CREATE INDEX IF NOT EXISTS files_depth       ON files(scan_id, depth);
    CREATE INDEX IF NOT EXISTS files_dev_inode   ON files(scan_id, dev, inode);

    CREATE TABLE IF NOT EXISTS quarantine (
        id              INTEGER PRIMARY KEY,
        original_path   TEXT    NOT NULL,
        quarantine_path TEXT    NOT NULL,
        deleted_at      INTEGER NOT NULL,
        expires_at      INTEGER NOT NULL,
        size            INTEGER NOT NULL
    );
"
    } else if step == 2 {
        "
    CREATE INDEX IF NOT EXISTS files_own_size_files
        ON files(scan_id, size DESC)
        WHERE is_dir = 0 AND is_clone = 0;
"
    } else {
        "
    CREATE INDEX IF NOT EXISTS files_drill_in
        ON files(scan_id, parent_path, recursive_size DESC, is_dir);
"
    }
}

} // verus!
