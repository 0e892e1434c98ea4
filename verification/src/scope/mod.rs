//! Path-access scopes: which paths the scanner may touch and which roots a
//! full scan walks, in the direct-download and the sandboxed build.

pub mod full_disk;
pub mod sandboxed;

use vstd::prelude::*;

verus! {

/// `home` is the value of the `HOME` environment variable at the time of the
/// call, when it is set.
pub trait ScanScope {
    /// Whether `path` is reachable under the scope.
    fn allows(&self, path: &str, home: Option<&str>) -> bool;

    /// Roots to walk on a full scan.
    fn allowed_roots(&self, home: Option<&str>) -> Vec<String>;

    /// Human-readable description for diagnostics.
    fn human_name(&self) -> &'static str;
}

} // verus!
