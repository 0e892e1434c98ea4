//! Decisions of the filesystem walk: which children are recorded, which are
//! descended into, and how one directory entry becomes a row.

use vstd::prelude::*;
use crate::paths::{extension_of, parent_of, path_extension, path_parent};
use crate::text::{lower_eq, lower_equals, same_text};

verus! {

/// One filesystem entry as recorded in the index.
#[derive(Debug, Clone)]
pub struct Entry {
    pub full_path: String,
    pub parent_path: Option<String>,
    pub name: String,
    pub depth: i64,
    pub is_dir: bool,
    pub is_symlink: bool,
    /// Allocated bytes on disk.
    pub size: i64,
    pub logical_size: i64,
    pub inode: i64,
    pub dev: i64,
    pub mtime: i64,
    pub ctime: i64,
    pub btime: i64,
}

/// The metadata of an entry as the walk reads it (lstat semantics).
#[derive(Debug, Clone, Copy)]
pub struct EntryMetadata {
    /// Allocated 512-byte blocks.
    pub blocks: u64,
    /// Logical length in bytes.
    pub len: u64,
    pub ino: u64,
    pub dev: u64,
    pub mtime: i64,
    pub ctime: i64,
    /// Seconds since the Unix epoch of the creation time, when the platform reports it.
    pub created_secs: Option<u64>,
}

/// Names never descended into nor recorded: file-provider virtual mounts.
pub open spec fn skipped_name(name: Seq<char>) -> bool {
    name == "CloudStorage"@ || name == "Mobile Documents"@
}

/// Whether a child with this file name is dropped from the walk.
pub fn is_skipped_name(name: &str) -> (b: bool)
    ensures
        b == skipped_name(name@),
{
    same_text(name, "CloudStorage") || same_text(name, "Mobile Documents")
}

/// Extensions (lower-cased) of bundles whose contents are not walked.
pub open spec fn opaque_extension(ext: Seq<char>) -> bool {
    lower_equals(ext, "app"@) || lower_equals(ext, "framework"@) || lower_equals(ext, "photoslibrary"@)
        || lower_equals(ext, "lrcat"@) || lower_equals(ext, "fcpbundle"@) || lower_equals(
        ext,
        "imovielibrary"@,
    )
}

/// Whether the path names an opaque bundle: the entry itself is recorded but
/// its subtree is not.
pub open spec fn opaque_bundle(path: Seq<char>) -> bool {
    match extension_of(path) {
        Some(ext) => opaque_extension(ext),
        None => false,
    }
}

/// `.app`, `.framework` and similar bundles (extension compared ignoring ASCII case).
pub fn is_opaque_bundle(path: &str) -> (b: bool)
    ensures
        b == opaque_bundle(path@),
{
    match path_extension(path) {
        Some(ext) => {
            let e = ext.as_str();
            lower_eq(e, "app") || lower_eq(e, "framework") || lower_eq(e, "photoslibrary")
                || lower_eq(e, "lrcat") || lower_eq(e, "fcpbundle") || lower_eq(e, "imovielibrary")
        },
        None => false,
    }
}

/// Whether the walk keeps a child with this name in its listing.
pub fn keeps_child(name: &str) -> (keep: bool)
    ensures
        keep == !skipped_name(name@),
        keep == !(name@ == "CloudStorage"@ || name@ == "Mobile Documents"@),
{
    !is_skipped_name(name)
}

/// The walk drops exactly the two file-provider mounts, "CloudStorage" and
/// "Mobile Documents"; every other child is recorded, hidden ones (a name
/// beginning with '.', such as ".Trash") included.
pub proof fn lemma_only_mounts_skipped(name: Seq<char>)
    ensures
        skipped_name(name) <==> (name == "CloudStorage"@ || name == "Mobile Documents"@),
        name.len() > 0 && name[0] == '.' ==> !skipped_name(name),
{
    reveal_strlit("CloudStorage");
    reveal_strlit("Mobile Documents");
    if name.len() > 0 && name[0] == '.' {
        assert(name != "CloudStorage"@ ==> true);
        assert("CloudStorage"@[0] == 'C');
        assert("Mobile Documents"@[0] == 'M');
    }
}

/// The walk does not enter application, framework, Photos, Lightroom,
/// Final Cut and iMovie bundles: an entry is opaque exactly when its
/// extension, lower-cased, is one of theirs; an entry without an extension
/// never is.
pub proof fn lemma_opaque_bundles(path: Seq<char>)
    ensures
        opaque_bundle(path) <==> (extension_of(path) matches Some(ext) && {
            let l = ext.map_values(|c: char| crate::text::ascii_lower(c));
            l == "app"@ || l == "framework"@ || l == "photoslibrary"@ || l == "lrcat"@ || l == "fcpbundle"@
                || l == "imovielibrary"@
        }),
        extension_of(path) is None ==> !opaque_bundle(path),
{
}

/// Whether the walk reads the children of a kept entry.
pub fn descends_into(path: &str, is_dir: bool) -> (descend: bool)
    ensures
        descend == (is_dir && !opaque_bundle(path@)),
{
    is_dir && !is_opaque_bundle(path)
}

/// `blocks * 512` as the signed size, after the `u64` to `i64` conversion,
/// saturating at the bounds of `i64`.
pub open spec fn allocated_spec(blocks: u64) -> int {
    let b: int = if blocks <= i64::MAX { blocks as int } else { blocks as int - 0x1_0000_0000_0000_0000 };
    if b * 512 > i64::MAX {
        i64::MAX as int
    } else if b * 512 < i64::MIN {
        i64::MIN as int
    } else {
        b * 512
    }
}

/// Allocated size on disk in bytes, from the count of 512-byte blocks.
pub fn allocated_bytes(blocks: u64) -> (bytes: i64)
    ensures
        bytes == allocated_spec(blocks),
{
    if blocks <= 0x7fff_ffff_ffff_ffffu64 {
        if blocks > 0x3f_ffff_ffff_ffffu64 {
            i64::MAX
        } else {
            let b: i64 = blocks as i64;
            b * 512
        }
    } else {
        // The conversion wraps into the negative range.
        let below: u64 = 0xffff_ffff_ffff_ffffu64 - blocks;
        // b = -(below + 1), with 0 <= below < 2^63
        if below >= 0x3f_ffff_ffff_ffffu64 {
            i64::MIN
        } else {
            let nb: i64 = below as i64;
            (-1 - nb) * 512
        }
    }
}

/// The `u64` to `i64` conversion of Rust's `as`, which wraps.
pub open spec fn wrap_i64(v: u64) -> int {
    if v <= i64::MAX { v as int } else { v as int - 0x1_0000_0000_0000_0000 }
}

/// Wrapping conversion of an unsigned quantity into the index's signed columns.
pub fn as_signed(v: u64) -> (s: i64)
    ensures
        s == wrap_i64(v),
{
    if v <= 0x7fff_ffff_ffff_ffffu64 {
        v as i64
    } else {
        let below: u64 = 0xffff_ffff_ffff_ffffu64 - v;
        let nb: i64 = below as i64;
        -1 - nb
    }
}

/// The row recorded for one walked entry.
pub open spec fn entry_spec(
    full_path: Seq<char>,
    name: Seq<char>,
    depth: usize,
    is_dir: bool,
    is_symlink: bool,
    meta: EntryMetadata,
    e: Entry,
) -> bool {
    &&& e.full_path@ == full_path
    &&& e.name@ == name
    &&& match e.parent_path {
        Some(p) => parent_of(full_path) == Some(p@),
        None => parent_of(full_path) is None,
    }
    &&& e.depth == wrap_i64(depth as u64)
    &&& e.is_dir == is_dir
    &&& e.is_symlink == is_symlink
    &&& e.size == allocated_spec(meta.blocks)
    &&& e.logical_size == wrap_i64(meta.len)
    &&& e.inode == wrap_i64(meta.ino)
    &&& e.dev == wrap_i64(meta.dev)
    &&& e.mtime == meta.mtime
    &&& e.ctime == meta.ctime
    &&& e.btime == match meta.created_secs { Some(s) => wrap_i64(s), None => 0 }
}

/// Turns a walked entry into its row; an entry whose metadata could not be
/// read (`None`) is skipped.
pub fn to_entry(
    full_path: String,
    name: String,
    depth: usize,
    is_dir: bool,
    is_symlink: bool,
    meta: Option<EntryMetadata>,
) -> (e: Option<Entry>)
    ensures
        match meta {
            None => e is None,
            Some(m) => e matches Some(r) && entry_spec(full_path@, name@, depth, is_dir, is_symlink, m, r),
        },
{
    let m = match meta {
        Some(m) => m,
        None => return None,
    };
    let parent_path = path_parent(full_path.as_str());
    let btime: i64 = match m.created_secs {
        Some(s) => as_signed(s),
        None => 0,
    };
    Some(Entry {
        full_path,
        parent_path,
        name,
        depth: as_signed(depth as u64),
        is_dir,
        is_symlink,
        size: allocated_bytes(m.blocks),
        logical_size: as_signed(m.len),
        inode: as_signed(m.ino),
        dev: as_signed(m.dev),
        mtime: m.mtime,
        ctime: m.ctime,
        btime,
    })
}

} // verus!
