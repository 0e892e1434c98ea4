//! The statements the scanner and the delete pipeline run against the index.

use vstd::prelude::*;

verus! {

/// Creates the run row of a new scan, running and empty: `?1` start time, `?2` first root.
pub fn create_scan_run_sql() -> (sql: &'static str)
    ensures
        sql@ == "INSERT INTO scan_runs (started_at, root_path, file_count, bytes_seen, status) VALUES (?1, ?2, 0, 0, 'running')"@,
{
    "INSERT INTO scan_runs (started_at, root_path, file_count, bytes_seen, status) VALUES (?1, ?2, 0, 0, 'running')"
}

/// Closes a scan run: `?1` finish time, `?2` file count, `?3` bytes seen, `?4` status, `?5` run id.
pub fn finish_scan_run_sql() -> (sql: &'static str)
    ensures
        sql@ == "UPDATE scan_runs SET finished_at = ?1, file_count = ?2, bytes_seen = ?3, status = ?4 WHERE id = ?5"@,
{
    "UPDATE scan_runs SET finished_at = ?1, file_count = ?2, bytes_seen = ?3, status = ?4 WHERE id = ?5"
}

/// Stores one row of a scan (`?1` run id, then the row's columns; the recursive size starts at 0).
pub fn insert_file_sql() -> (sql: &'static str)
    ensures
        sql@ == "INSERT INTO files (scan_id, parent_path, name, full_path, depth, is_dir, is_symlink, is_clone, size, recursive_size, logical_size, inode, dev, mtime, ctime, btime) VALUES (?1, ?2, ?3, ?4, ?5, ?6, ?7, ?8, ?9, 0, ?10, ?11, ?12, ?13, ?14, ?15)"@,
{
    "INSERT INTO files (scan_id, parent_path, name, full_path, depth, is_dir, is_symlink, is_clone, size, recursive_size, logical_size, inode, dev, mtime, ctime, btime) VALUES (?1, ?2, ?3, ?4, ?5, ?6, ?7, ?8, ?9, 0, ?10, ?11, ?12, ?13, ?14, ?15)"
}

/// First aggregation step: every row of run `?1` starts from its own size, clones from 0.
pub fn seed_recursive_sizes_sql() -> (sql: &'static str)
    ensures
        sql@ == "UPDATE files SET recursive_size = CASE WHEN is_clone = 0 THEN size ELSE 0 END WHERE scan_id = ?1"@,
{
    "UPDATE files SET recursive_size = CASE WHEN is_clone = 0 THEN size ELSE 0 END WHERE scan_id = ?1"
}

/// The deepest level of run `?1` (0 for an empty run).
pub fn max_depth_sql() -> (sql: &'static str)
    ensures
        sql@ == "SELECT COALESCE(MAX(depth), 0) FROM files WHERE scan_id = ?1"@,
{
    "SELECT COALESCE(MAX(depth), 0) FROM files WHERE scan_id = ?1"
}

/// One aggregation level: each directory of run `?1` at depth `?2` adds the recursive sizes of its direct children.
pub fn add_children_sizes_sql() -> (sql: &'static str)
    ensures
        sql@ == "UPDATE files SET recursive_size = recursive_size + COALESCE((SELECT SUM(c.recursive_size) FROM files c WHERE c.scan_id = files.scan_id AND c.parent_path = files.full_path), 0) WHERE scan_id = ?1 AND depth = ?2 AND is_dir = 1"@,
{
    "UPDATE files SET recursive_size = recursive_size + COALESCE((SELECT SUM(c.recursive_size) FROM files c WHERE c.scan_id = files.scan_id AND c.parent_path = files.full_path), 0) WHERE scan_id = ?1 AND depth = ?2 AND is_dir = 1"
}

/// Children of `?2` in run `?1`, largest recursive size first, at most `?3`.
pub fn treemap_children_sql() -> (sql: &'static str)
    ensures
        sql@ == "SELECT name, full_path, recursive_size, is_dir FROM files WHERE scan_id = ?1 AND parent_path = ?2 ORDER BY recursive_size DESC LIMIT ?3"@,
{
    "SELECT name, full_path, recursive_size, is_dir FROM files WHERE scan_id = ?1 AND parent_path = ?2 ORDER BY recursive_size DESC LIMIT ?3"
}

/// Largest non-clone files of run `?1`, at most `?2`.
pub fn largest_files_sql() -> (sql: &'static str)
    ensures
        sql@ == "SELECT full_path, name, size, mtime FROM files WHERE scan_id = ?1 AND is_dir = 0 AND is_clone = 0 ORDER BY size DESC LIMIT ?2"@,
{
    "SELECT full_path, name, size, mtime FROM files WHERE scan_id = ?1 AND is_dir = 0 AND is_clone = 0 ORDER BY size DESC LIMIT ?2"
}

/// The most recently started run that finished or was cancelled.
pub fn latest_finished_scan_sql() -> (sql: &'static str)
    ensures
        sql@ == "SELECT id FROM scan_runs WHERE status IN ('done', 'cancelled') ORDER BY started_at DESC LIMIT 1"@,
{
    "SELECT id FROM scan_runs WHERE status IN ('done', 'cancelled') ORDER BY started_at DESC LIMIT 1"
}

/// Removes the rows of path `?1` and of everything whose path begins with `?2` (the path followed by '/', see `prune_prefix`); the comparison is exact, with no wildcard.
pub fn prune_path_sql() -> (sql: &'static str)
    ensures
        sql@ == "DELETE FROM files WHERE full_path = ?1 OR substr(full_path, 1, length(?2)) = ?2"@,
{
    "DELETE FROM files WHERE full_path = ?1 OR substr(full_path, 1, length(?2)) = ?2"
}

/// Records one quarantined item: `?1` original path, `?2` quarantine path, `?3` time, `?4` expiry, `?5` size.
pub fn insert_quarantine_sql() -> (sql: &'static str)
    ensures
        sql@ == "INSERT INTO quarantine (original_path, quarantine_path, deleted_at, expires_at, size) VALUES (?1, ?2, ?3, ?4, ?5)"@,
{
    "INSERT INTO quarantine (original_path, quarantine_path, deleted_at, expires_at, size) VALUES (?1, ?2, ?3, ?4, ?5)"
}

/// All quarantine entries, most recent first.
pub fn list_quarantine_sql() -> (sql: &'static str)
    ensures
        sql@ == "SELECT id, original_path, quarantine_path, deleted_at, expires_at, size FROM quarantine ORDER BY deleted_at DESC"@,
{
    "SELECT id, original_path, quarantine_path, deleted_at, expires_at, size FROM quarantine ORDER BY deleted_at DESC"
}

/// What a restore needs of quarantine entry `?1`.
pub fn quarantine_row_sql() -> (sql: &'static str)
    ensures
        sql@ == "SELECT original_path, quarantine_path, size FROM quarantine WHERE id = ?1"@,
{
    "SELECT original_path, quarantine_path, size FROM quarantine WHERE id = ?1"
}

/// Drops quarantine entry `?1` once it was restored or purged.
pub fn forget_quarantine_sql() -> (sql: &'static str)
    ensures
        sql@ == "DELETE FROM quarantine WHERE id = ?1"@,
{
    "DELETE FROM quarantine WHERE id = ?1"
}

} // verus!
