//! The decisions behind the UI's commands that do not need the index.

use vstd::prelude::*;
use vstd::string::StringExecFns;
use crate::error::AppError;

verus! {

#[derive(Debug, Clone, Copy)]
pub struct BuildInfo {
    pub version: &'static str,
    pub build: &'static str,
    pub privileged: bool,
    pub sandboxed: bool,
}

/// Describes the running build: `appstore` for the sandboxed store build,
/// `devid` for the direct download.
pub fn get_build_info(version: &'static str, appstore: bool, privileged: bool) -> (info: BuildInfo)
    ensures
        info.version == version,
        info.build@ == (if appstore { "appstore"@ } else { "devid"@ }),
        info.privileged == privileged,
        info.sandboxed == appstore,
{
    BuildInfo {
        version,
        build: if appstore { "appstore" } else { "devid" },
        privileged,
        sandboxed: appstore,
    }
}

/// The roots a scan starts from by default: the user's home directory, when
/// it is known and not empty.
pub fn default_scan_roots(home: Option<String>) -> (roots: Vec<String>)
    ensures
        match home {
            Some(h) if h@.len() > 0 => roots@ == seq![h],
            _ => roots@.len() == 0,
        },
{
    let mut roots: Vec<String> = Vec::new();
    match home {
        Some(h) => {
            if h.unicode_len() > 0 {
                roots.push(h);
                assert(roots@ =~= seq![roots@[0]]);
            }
        },
        None => {},
    }
    roots
}

#[derive(Debug, Clone, Copy)]
pub struct StartScanResult {
    pub scan_id: i64,
}

/// A scan needs at least one root.
pub fn check_scan_roots(roots: &Vec<String>) -> (r: Result<(), AppError>)
    ensures
        r is Ok <==> roots@.len() > 0,
        r matches Err(e) ==> e matches AppError::Scan(m) && m@ == "no roots provided"@,
{
    if roots.len() == 0 {
        Err(AppError::Scan(String::from_str("no roots provided")))
    } else {
        Ok(())
    }
}

/// Number of rows a listing returns when the UI gives no limit.
pub const DEFAULT_LIMIT: usize = 100;

pub fn query_limit(limit: Option<usize>) -> (n: usize)
    ensures
        n == match limit { Some(l) => l, None => 100 },
{
    match limit {
        Some(l) => l,
        None => DEFAULT_LIMIT,
    }
}

/// Whether a new scan may take the active slot: not while the scan in it
/// (whose status string is `existing`) is still running.
pub fn check_scan_slot(existing: Option<&str>) -> (r: Result<(), AppError>)
    ensures
        r is Err <==> (existing matches Some(s) && s@ == "running"@),
        r matches Err(e) ==> e == AppError::ScanAlreadyRunning,
{
    match existing {
        Some(s) => {
            if crate::text::same_text(s, "running") {
                return Err(AppError::ScanAlreadyRunning);
            }
            Ok(())
        },
        None => Ok(()),
    }
}

} // verus!
