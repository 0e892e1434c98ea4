use vstd::prelude::*;
use vstd::string::StringExecFns;
use super::ScanScope;

verus! {

/// Unrestricted scope of the direct-download build.
pub struct FullDiskScope;

impl FullDiskScope {
    pub fn new() -> (s: Self)
        ensures
            s == FullDiskScope,
    {
        FullDiskScope
    }
}

impl Default for FullDiskScope {
    fn default() -> (d: Self)
        ensures
            d == FullDiskScope,
    {
        FullDiskScope::new()
    }
}

impl ScanScope for FullDiskScope {
    fn allows(&self, path: &str, home: Option<&str>) -> (b: bool)
        ensures
            b,
    {
        true
    }

    fn allowed_roots(&self, home: Option<&str>) -> (roots: Vec<String>)
        ensures
            roots@.len() == 3,
            roots@[0]@ == "/Users"@,
            roots@[1]@ == "/Library"@,
            roots@[2]@ == "/private/var/folders"@,
    {
        let mut roots: Vec<String> = Vec::new();
        roots.push(String::from_str("/Users"));
        roots.push(String::from_str("/Library"));
        roots.push(String::from_str("/private/var/folders"));
        roots
    }

    fn human_name(&self) -> (n: &'static str)
        ensures
            n@ == "Full Disk (direct download build)"@,
    {
        "Full Disk (direct download build)"
    }
}

} // verus!
