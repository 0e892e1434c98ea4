//! Trash: items directly inside the users' `.Trash` directories.

use vstd::prelude::*;
use vstd::string::StringExecFns;
use super::{placeholder_list, placeholders, Category, Risk};

verus! {

pub struct Trash;

impl Category for Trash {
    fn id(&self) -> (s: &'static str)
        ensures
            s@ == "trash"@,
    {
        "trash"
    }

    fn name(&self) -> (s: &'static str)
        ensures
            s@ == "Trash"@,
    {
        "Trash"
    }

    fn description(&self) -> (s: &'static str)
        ensures
            s@ == "Files you've already moved to the Trash. Emptying frees their space immediately."@,
    {
        "Files you've already moved to the Trash. Emptying frees their space immediately."
    }

    fn risk(&self) -> (r: Risk)
        ensures
            r == Risk::Safe,
    {
        Risk::Safe
    }

    fn summary_sql(&self, n: usize) -> (sql: String)
        ensures
            sql@ == summary_sql_text(n as nat),
    {
        String::from_str(
            "SELECT COALESCE(SUM(recursive_size), 0), COUNT(*)\n             FROM files\n             WHERE scan_id = ?\n               AND parent_path IN (",
        ).concat(placeholders(n).as_str()).concat(")")
    }

    fn items_sql(&self, n: usize) -> (sql: String)
        ensures
            sql@ == items_sql_text(n as nat),
    {
        String::from_str(
            "SELECT full_path, recursive_size, mtime, is_dir, parent_path\n             FROM files\n             WHERE scan_id = ?\n               AND parent_path IN (",
        ).concat(placeholders(n).as_str()).concat(")\n             ORDER BY recursive_size DESC\n             LIMIT ?")
    }
}

/// The `.Trash` directories of a scan: one level below a scan root (which
/// is at depth 0), resolved up front so the item queries can use the
/// `(scan_id, parent_path)` index. Parameter: the scan id.
pub fn trash_dirs_sql() -> (sql: &'static str)
    ensures
        sql@ == "SELECT full_path FROM files\n             WHERE scan_id = ?1\n               AND depth = 1\n               AND is_dir = 1\n               AND name = '.Trash'"@,
{
    "SELECT full_path FROM files\n             WHERE scan_id = ?1\n               AND depth = 1\n               AND is_dir = 1\n               AND name = '.Trash'"
}

/// Total recursive size and count of the entries in `n` trash directories.
/// Parameters: the scan id, then the directories.
pub open spec fn summary_sql_text(n: nat) -> Seq<char> {
    "SELECT COALESCE(SUM(recursive_size), 0), COUNT(*)\n             FROM files\n             WHERE scan_id = ?\n               AND parent_path IN ("@
        + placeholder_list(n) + ")"@
}


/// Entries of `n` trash directories, largest first, at most `?` of them.
/// Parameters: the scan id, the directories, the limit.
pub open spec fn items_sql_text(n: nat) -> Seq<char> {
    "SELECT full_path, recursive_size, mtime, is_dir, parent_path\n             FROM files\n             WHERE scan_id = ?\n               AND parent_path IN ("@
        + placeholder_list(n) + ")\n             ORDER BY recursive_size DESC\n             LIMIT ?"@
}


/// The Trash total is the sum of `recursive_size` (the whole subtree of each
/// trashed item) and the count, over exactly the rows the item listing
/// reports, and the listing reports that same column as each item's size.
pub proof fn lemma_trash_summary_sums_listed_sizes(n: nat)
    ensures
        summary_sql_text(n).subrange(0, 49) == "SELECT COALESCE(SUM(recursive_size), 0), COUNT(*)"@,
        items_sql_text(n).subrange(0, 33) == "SELECT full_path, recursive_size,"@,
        summary_sql_text(n).subrange(49, summary_sql_text(n).len() - 1)
            == items_sql_text(n).subrange(60, 60 + summary_sql_text(n).len() - 50),
{
    reveal_strlit("SELECT COALESCE(SUM(recursive_size), 0), COUNT(*)\n             FROM files\n             WHERE scan_id = ?\n               AND parent_path IN (");
    reveal_strlit("SELECT full_path, recursive_size, mtime, is_dir, parent_path\n             FROM files\n             WHERE scan_id = ?\n               AND parent_path IN (");
    reveal_strlit(")");
    reveal_strlit(")\n             ORDER BY recursive_size DESC\n             LIMIT ?");
    reveal_strlit("SELECT COALESCE(SUM(recursive_size), 0), COUNT(*)");
    reveal_strlit("SELECT full_path, recursive_size,");
    let a = "SELECT COALESCE(SUM(recursive_size), 0), COUNT(*)\n             FROM files\n             WHERE scan_id = ?\n               AND parent_path IN ("@;
    let b = "SELECT full_path, recursive_size, mtime, is_dir, parent_path\n             FROM files\n             WHERE scan_id = ?\n               AND parent_path IN ("@;
    let ph = placeholder_list(n);
    let s = summary_sql_text(n);
    let t = items_sql_text(n);
    assert(s =~= a + ph + ")"@);
    assert(t =~= b + ph + ")\n             ORDER BY recursive_size DESC\n             LIMIT ?"@);
    assert(a.subrange(0, 49) =~= "SELECT COALESCE(SUM(recursive_size), 0), COUNT(*)"@);
    assert(s.subrange(0, 49) =~= a.subrange(0, 49));
    assert(b.subrange(0, 33) =~= "SELECT full_path, recursive_size,"@);
    assert(t.subrange(0, 33) =~= b.subrange(0, 33));
    assert(a.subrange(49, a.len() as int) =~= b.subrange(60, b.len() as int));
    assert(s.subrange(49, s.len() - 1) =~= a.subrange(49, a.len() as int) + ph);
    assert(t.subrange(60, 60 + s.len() - 50) =~= b.subrange(60, b.len() as int) + ph);
}

} // verus!
