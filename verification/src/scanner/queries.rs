//! Read-side results of the index and the plan of the recursive-size
//! aggregation.

use vstd::prelude::*;

verus! {

#[derive(Debug, Clone)]
pub struct TreemapNode {
    pub name: String,
    pub full_path: String,
    pub size: i64,
    pub is_dir: bool,
    /// Not computed per query; always 0.
    pub child_count: i64,
}

#[derive(Debug, Clone)]
pub struct LargestFile {
    pub full_path: String,
    pub name: String,
    pub size: i64,
    pub mtime: Option<i64>,
}

/// The treemap node for one result row; a nonzero `is_dir` column is a directory.
pub fn treemap_node(name: String, full_path: String, size: i64, is_dir: i64) -> (n: TreemapNode)
    ensures
        n.name == name,
        n.full_path == full_path,
        n.size == size,
        n.is_dir == (is_dir != 0),
        n.child_count == 0,
{
    TreemapNode { name, full_path, size, is_dir: is_dir != 0, child_count: 0 }
}

pub fn largest_file(full_path: String, name: String, size: i64, mtime: Option<i64>) -> (f: LargestFile)
    ensures
        f.full_path == full_path,
        f.name == name,
        f.size == size,
        f.mtime == mtime,
{
    LargestFile { full_path, name, size, mtime }
}

/// The depths whose directories accumulate their children's sizes, deepest
/// first: `max_depth - 1` down to 0 (none when `max_depth <= 0`). Each level
/// is complete before its parents are summed.
pub fn aggregation_depths(max_depth: i64) -> (depths: Vec<i64>)
    ensures
        depths@.len() == (if max_depth > 0 { max_depth as int } else { 0 }),
        forall|k: int| 0 <= k < depths@.len() ==> #[trigger] depths@[k] == max_depth - 1 - k,
{
    let mut depths: Vec<i64> = Vec::new();
    let mut d: i64 = max_depth;
    while d > 0
        invariant
            d <= max_depth || max_depth <= 0,
            d >= 0 || d == max_depth,
            max_depth > 0 ==> depths@.len() == max_depth - d,
            max_depth <= 0 ==> depths@.len() == 0 && d == max_depth,
            forall|k: int| 0 <= k < depths@.len() ==> #[trigger] depths@[k] == max_depth - 1 - k,
        decreases d,
    {
        d = d - 1;
        depths.push(d);
    }
    depths
}

} // verus!
