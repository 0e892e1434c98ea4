//! An administrator-elevated retry of hard deletes: the checks every path
//! must pass before anything runs as root, the helper files' names and
//! contents, and the accounting of what the retry removed.

use vstd::prelude::*;
use vstd::string::StringExecFns;
use crate::paths::{joined, lexically_under, lexically_within, path_join};
use crate::text::{contains_char, decimal, has_prefix, same_text, starts_with, u64_text};
use super::{DeleteError, DeleteResult};

verus! {

/// Why a path may not be handed to the elevated delete, if it may not. A
/// path must begin with `/Users/` and stay there once its ".." are resolved;
/// it may not name `/Users` itself, literally or through "..".
pub open spec fn admin_rejection(p: Seq<char>) -> Option<Seq<char>> {
    if !has_prefix(p, "/Users/"@) || !lexically_within(p, "/Users/"@) {
        Some("refusing to admin-delete outside /Users"@)
    } else if p == "/Users"@ || p == "/Users/"@ || lexically_within("/Users"@, p) {
        Some("refusing to admin-delete /Users root"@)
    } else if p.contains('\0') || p.contains('\n') {
        Some("path contains illegal control character"@)
    } else {
        None
    }
}

/// The checks on one path, in the order they are made.
pub fn admin_path_problem(p: &str) -> (problem: Option<String>)
    ensures
        match problem {
            Some(m) => admin_rejection(p@) == Some(m@),
            None => admin_rejection(p@) is None,
        },
{
    if !starts_with(p, "/Users/") || !lexically_under(p, "/Users/") {
        Some(String::from_str("refusing to admin-delete outside /Users"))
    } else if same_text(p, "/Users") || same_text(p, "/Users/") || lexically_under("/Users", p) {
        Some(String::from_str("refusing to admin-delete /Users root"))
    } else if contains_char(p, '\0') || contains_char(p, '\n') {
        Some(String::from_str("path contains illegal control character"))
    } else {
        None
    }
}

/// Validates every path before the list goes to root. The first path that
/// fails a check is reported (and nothing is deleted); `None` when all pass.
pub fn validate_admin_paths(paths: &Vec<String>) -> (rejected: Option<DeleteError>)
    ensures
        match rejected {
            None => forall|i: int| 0 <= i < paths@.len() ==> admin_rejection(#[trigger] paths@[i]@) is None,
            Some(e) => exists|i: int|
                0 <= i < paths@.len() && e.path == paths@[i] && admin_rejection(paths@[i]@) == Some(
                    e.message@,
                ) && forall|j: int| 0 <= j < i ==> admin_rejection(#[trigger] paths@[j]@) is None,
        },
{
    let mut i: usize = 0;
    while i < paths.len()
        invariant
            i <= paths.len(),
            forall|j: int| 0 <= j < i ==> admin_rejection(#[trigger] paths@[j]@) is None,
        decreases paths.len() - i,
    {
        match admin_path_problem(paths[i].as_str()) {
            Some(message) => {
                return Some(DeleteError { path: paths[i].clone(), message });
            },
            None => {},
        }
        i = i + 1;
    }
    None
}

/// The answer given before anything is run: nothing to do for an empty
/// list (an empty result), or the first rejected path as the only error.
/// `None` means the elevated delete goes ahead.
pub fn admin_precheck(paths: &Vec<String>) -> (early: Option<DeleteResult>)
    ensures
        paths@.len() == 0 ==> (early matches Some(r) && r.freed == 0 && r.deleted@.len() == 0 && r.errors@.len() == 0),
        paths@.len() > 0 ==> match early {
            None => forall|i: int| 0 <= i < paths@.len() ==> admin_rejection(#[trigger] paths@[i]@) is None,
            Some(r) => {
                &&& r.freed == 0
                &&& r.deleted@.len() == 0
                &&& r.errors@.len() == 1
                &&& exists|i: int|
                    0 <= i < paths@.len() && r.errors@[0].path == paths@[i] && admin_rejection(paths@[i]@)
                        == Some(r.errors@[0].message@) && forall|j: int|
                        0 <= j < i ==> admin_rejection(#[trigger] paths@[j]@) is None
            },
        },
{
    if paths.len() == 0 {
        return Some(DeleteResult { freed: 0, deleted: Vec::new(), errors: Vec::new() });
    }
    match validate_admin_paths(paths) {
        Some(e) => {
            let mut errors: Vec<DeleteError> = Vec::new();
            errors.push(e);
            Some(DeleteResult { freed: 0, deleted: Vec::new(), errors })
        },
        None => None,
    }
}

/// Sum of the sizes that could be measured; unmeasurable paths add nothing.
pub open spec fn known_total(sizes: Seq<Option<i64>>) -> int
    decreases sizes.len(),
{
    if sizes.len() == 0 {
        0
    } else {
        known_total(sizes.drop_last()) + match sizes.last() {
            Some(s) => s as int,
            None => 0,
        }
    }
}

/// Best-effort total size before an elevated delete.
pub fn planned_size(sizes: &Vec<Option<i64>>) -> (total: i64)
    requires
        forall|k: int| 0 <= k <= sizes@.len() ==> i64::MIN <= #[trigger] known_total(sizes@.take(k)) <= i64::MAX,
    ensures
        total == known_total(sizes@),
{
    let mut total: i64 = 0;
    let mut i: usize = 0;
    assert(sizes@.take(0) =~= Seq::<Option<i64>>::empty());
    while i < sizes.len()
        invariant
            i <= sizes.len(),
            total == known_total(sizes@.take(i as int)),
            forall|k: int| 0 <= k <= sizes@.len() ==> i64::MIN <= #[trigger] known_total(sizes@.take(k)) <= i64::MAX,
        decreases sizes.len() - i,
    {
        assert(sizes@.take(i + 1).drop_last() =~= sizes@.take(i as int));
        assert(known_total(sizes@.take(i + 1)) <= i64::MAX);
        match sizes[i] {
            Some(s) => {
                total = total + s;
            },
            None => {},
        }
        i = i + 1;
    }
    assert(sizes@.take(sizes.len() as int) =~= sizes@);
    total
}

/// File name of the helper files of an elevated delete:
/// `mac-storage-clear-admin-<pid>-<nonce>.<ext>`.
pub open spec fn admin_file_name(pid: u32, nonce: u64, ext: Seq<char>) -> Seq<char> {
    "mac-storage-clear-admin-"@ + decimal(pid as int) + "-"@ + decimal(nonce as int) + "."@ + ext
}

/// Path of a helper file in `temp_dir`.
pub fn admin_temp_file(temp_dir: &str, pid: u32, nonce: u64, ext: &str) -> (p: String)
    ensures
        p@ == joined(temp_dir@, admin_file_name(pid, nonce, ext@)),
{
    let name = String::from_str("mac-storage-clear-admin-").concat(u64_text(pid as u64).as_str()).concat(
        "-",
    ).concat(u64_text(nonce).as_str()).concat(".").concat(ext);
    path_join(temp_dir, name.as_str())
}

/// The script run as root: reads the NUL-separated list at `list_path`,
/// re-checks each path is under `/Users/` and removes it.
pub open spec fn admin_script_text(list_path: Seq<char>) -> Seq<char> {
    "#!/bin/bash\nwhile IFS= read -r -d '' path; do\ncase \"$path\" in\n/Users/*) ;; \n*) echo \"refusing $path\" >&2; continue ;; \nesac\nrm -rf -- \"$path\" || echo \"failed: $path\" >&2\ndone < '"@
        + list_path + "'\n"@
}

pub fn admin_script(list_path: &str) -> (script: String)
    ensures
        script@ == admin_script_text(list_path@),
{
    String::from_str(
        "#!/bin/bash\nwhile IFS= read -r -d '' path; do\ncase \"$path\" in\n/Users/*) ;; \n*) echo \"refusing $path\" >&2; continue ;; \nesac\nrm -rf -- \"$path\" || echo \"failed: $path\" >&2\ndone < '",
    ).concat(list_path).concat("'\n")
}

/// The AppleScript that runs the script with administrator privileges.
pub open spec fn osascript_text(script_path: Seq<char>) -> Seq<char> {
    "do shell script \""@ + script_path
        + "\" with administrator privileges with prompt \"Mac Storage Clear needs admin access to delete protected files (typically code-signed app bundles inside /Users).\""@
}

pub fn admin_osascript(script_path: &str) -> (osa: String)
    ensures
        osa@ == osascript_text(script_path@),
{
    String::from_str("do shell script \"").concat(script_path).concat(
        "\" with administrator privileges with prompt \"Mac Storage Clear needs admin access to delete protected files (typically code-signed app bundles inside /Users).\"",
    )
}

/// The error recorded when `osascript` could not be started.
pub fn osascript_launch_error(reason: &str) -> (e: DeleteError)
    ensures
        e.path@ == Seq::<char>::empty(),
        e.message@ == "osascript: "@ + reason@,
{
    DeleteError { path: String::new(), message: String::from_str("osascript: ").concat(reason) }
}

/// The error recorded when the elevated script reported failure; an empty
/// error output means the user cancelled or `osascript` itself failed.
pub fn admin_failure(stderr: &str) -> (e: DeleteError)
    ensures
        e.path@ == Seq::<char>::empty(),
        e.message@ == "admin-delete failed: "@ + (if stderr@.len() == 0 {
            "user cancelled or osascript errored"@
        } else {
            stderr@
        }),
{
    let detail = if stderr.unicode_len() == 0 {
        String::from_str("user cancelled or osascript errored")
    } else {
        String::from_str(stderr)
    };
    DeleteError {
        path: String::new(),
        message: String::from_str("admin-delete failed: ").concat(detail.as_str()),
    }
}

/// Accounts an elevated delete that ran: each path still present is an
/// error, each gone path is deleted, and the freed total is the size planned
/// beforehand.
pub fn admin_outcome(paths: Vec<String>, still_present: &Vec<bool>, planned: i64) -> (r: DeleteResult)
    requires
        still_present@.len() == paths@.len(),
    ensures
        r.freed == planned,
        r.deleted@ == admin_gone(paths@, still_present@),
        r.errors@.map_values(|e: DeleteError| e.path) == admin_left(paths@, still_present@),
        forall|k: int| 0 <= k < r.errors@.len() ==> (#[trigger] r.errors@[k]).message@ == still_present_message(),
{
    let mut r = DeleteResult { freed: 0, deleted: Vec::new(), errors: Vec::new() };
    let n = paths.len();
    let mut i: usize = 0;
    while i < n
        invariant
            n == paths@.len(),
            still_present@.len() == n,
            i <= n,
            r.freed == 0,
            r.deleted@ == admin_gone(paths@.take(i as int), still_present@.take(i as int)),
            r.errors@.map_values(|e: DeleteError| e.path) == admin_left(paths@.take(i as int), still_present@.take(i as int)),
            forall|k: int| 0 <= k < r.errors@.len() ==> (#[trigger] r.errors@[k]).message@ == still_present_message(),
        decreases n - i,
    {
        assert(paths@.take(i + 1).drop_last() =~= paths@.take(i as int));
        assert(still_present@.take(i + 1).drop_last() =~= still_present@.take(i as int));
        let p = paths[i].clone();
        if still_present[i] {
            r.errors.push(DeleteError {
                path: p,
                message: String::from_str(
                    "still present after admin-delete (likely a virtual file-provider mount)",
                ),
            });
        } else {
            r.deleted.push(p);
        }
        i = i + 1;
    }
    assert(paths@.take(n as int) =~= paths@);
    assert(still_present@.take(n as int) =~= still_present@);
    r.freed = planned;
    r
}

/// The paths found gone after the elevated delete, in order.
pub open spec fn admin_gone(paths: Seq<String>, present: Seq<bool>) -> Seq<String>
    decreases paths.len(),
{
    if paths.len() == 0 || present.len() == 0 {
        Seq::empty()
    } else {
        let before = admin_gone(paths.drop_last(), present.drop_last());
        if present.last() { before } else { before.push(paths.last()) }
    }
}

/// The paths still present after the elevated delete, in order.
pub open spec fn admin_left(paths: Seq<String>, present: Seq<bool>) -> Seq<String>
    decreases paths.len(),
{
    if paths.len() == 0 || present.len() == 0 {
        Seq::empty()
    } else {
        let before = admin_left(paths.drop_last(), present.drop_last());
        if present.last() { before.push(paths.last()) } else { before }
    }
}

pub open spec fn still_present_message() -> Seq<char> {
    "still present after admin-delete (likely a virtual file-provider mount)"@
}

} // verus!
