use mac_storage_clear::delete::admin::{
    admin_failure, admin_osascript, admin_outcome, admin_path_problem, admin_precheck, admin_script, admin_temp_file,
    osascript_launch_error, planned_size, validate_admin_paths,
};
use mac_storage_clear::delete::quarantine::{
    prune_prefix, purge_due, quarantine_dest, quarantine_expiry, QuarantineEntry, QuarantineRow,
};
use mac_storage_clear::delete::{
    check_delete_request, copy_errors, delete_status, end_result, worker_failure, DeleteError, DeleteMode, DeleteResult,
    Admission, DeleteRun, EndStep,
};
use mac_storage_clear::index::sql::{insert_quarantine_sql, prune_path_sql};
use mac_storage_clear::error::AppError;

#[test]
fn delete_run_refuses_outside_users_and_accounts_bytes() {
    let mut run = DeleteRun::new(DeleteMode::Quarantine, 6, "/q".to_string(), 1700000000);
    assert!(!run.begin("/etc/passwd".to_string()));
    assert!(!run.begin("/Usersx/a".to_string()));
    assert!(run.begin("/Users/a/big.iso".to_string()));
    assert_eq!(run.quarantine_target(), "/q/1700000000-3-big.iso");
    run.finish(Ok(()), 1000);
    assert!(run.begin("/Users/a/gone".to_string()));
    run.stat_failed("No such file or directory");
    assert!(run.begin("/Users/a/locked".to_string()));
    run.finish(Err("Permission denied".to_string()), 50);
    assert!(run.begin("//Users/b/x".to_string()));
    run.finish(Ok(()), 24);
    assert_eq!(run.files_seen(), 6);
    assert_eq!(run.bytes_freed(), 1024);
    assert_eq!(run.current_path().as_deref(), Some("//Users/b/x"));
    let errors = run.errors();
    assert_eq!(errors.len(), 4);
    assert_eq!(errors[0].path, "/etc/passwd");
    assert_eq!(errors[0].message, "refusing to delete outside /Users");
    assert_eq!(errors[2].message, "stat: No such file or directory");
    assert_eq!(errors[3].message, "Permission denied");
    let (deleted, records) = run.outcome();
    assert_eq!(deleted, vec!["/Users/a/big.iso".to_string(), "//Users/b/x".to_string()]);
    assert_eq!(records.len(), 2);
    assert_eq!(records[0].quarantine_path, "/q/1700000000-3-big.iso");
    assert_eq!(records[1].quarantine_path, "/q/1700000000-6-x");
    assert_eq!(records[1].size, 24);
}

#[test]
fn same_names_in_one_run_get_distinct_quarantine_paths() {
    let mut run = DeleteRun::new(DeleteMode::Quarantine, 2, "/data/quarantine".to_string(), 1700000000);
    assert!(run.begin("/Users/a/x/r.pdf".to_string()));
    let first = run.quarantine_target();
    run.finish(Ok(()), 1);
    assert!(run.begin("/Users/a/y/r.pdf".to_string()));
    let second = run.quarantine_target();
    run.finish(Ok(()), 1);
    assert_eq!(first, "/data/quarantine/1700000000-1-r.pdf");
    assert_eq!(second, "/data/quarantine/1700000000-2-r.pdf");
    let (_, records) = run.outcome();
    assert_ne!(records[0].quarantine_path, records[1].quarantine_path);
}

#[test]
fn non_quarantine_runs_keep_no_records() {
    let mut run = DeleteRun::new(DeleteMode::Hard, 2, "/q".to_string(), 0);
    assert!(run.begin("/Users/a/x".to_string()));
    run.finish(Ok(()), i64::MAX);
    assert!(run.begin("/Users/a/y".to_string()));
    run.finish(Ok(()), 1);
    // the atomic counter wraps
    assert_eq!(run.bytes_freed(), i64::MIN);
    assert_eq!(run.files_seen(), 2);
    let (deleted, records) = run.outcome();
    assert_eq!(deleted.len(), 2);
    assert!(records.is_empty());
}

#[test]
fn delete_request_needs_paths() {
    match check_delete_request(&vec![]) {
        Err(AppError::Scan(m)) => assert_eq!(m, "no paths to delete"),
        _ => panic!("expected an error"),
    }
    assert_eq!(check_delete_request(&vec!["/Users/a".to_string(), "/Users/b".to_string()]), Ok(2));
    let d = worker_failure(&AppError::Sqlite("disk I/O error".into()));
    assert_eq!(d.path, "");
    assert_eq!(d.message, "sqlite error: disk I/O error");
    let s = delete_status(3, DeleteMode::Trash, "done".into(), 2, 10, 2, None, vec![], 100, Some(101), 500);
    assert_eq!(s.elapsed_ms, 1000);
    assert_eq!(s.mode, DeleteMode::Trash);
    let errs = vec![DeleteError { path: "a".into(), message: "b".into() }];
    assert_eq!(copy_errors(&errs)[0].message, "b");
}

#[test]
fn quarantine_naming_and_retention() {
    assert_eq!(quarantine_expiry(1_000), 1_000 + 7 * 86_400);
    assert_eq!(
        quarantine_dest("/data/quarantine", "/Users/a/My File.txt", 1700000000, 1),
        "/data/quarantine/1700000000-1-My File.txt"
    );
    assert_eq!(quarantine_dest("/data/quarantine/", "/", -5, 12), "/data/quarantine/-5-12-unnamed");
    assert_eq!(quarantine_dest("/data/quarantine", "/Users/a/r.pdf", 7, 2), "/data/quarantine/7-2-r.pdf");
    assert_eq!(prune_prefix("/Users/a_b"), "/Users/a_b/");
}

#[test]
fn purge_threshold_uses_whole_days() {
    let day = 86_400;
    assert!(purge_due(10 * day, 0, None));
    assert!(purge_due(10 * day, 3 * day, Some(7)));
    assert!(!purge_due(10 * day, 3 * day + 1, Some(7)));
    // a clock that went backwards gives a negative age, truncated toward zero
    assert!(purge_due(0, day - 1, Some(0)));
    assert!(!purge_due(0, day, Some(0)));
    assert!(purge_due(i64::MAX, 0, Some(1)));
}

#[test]
fn restore_accounting() {
    let mut r = DeleteResult::new();
    assert!(!r.plan_restore(42, &None, false));
    let row = QuarantineRow { original_path: "/Users/a/x".into(), quarantine_path: "/q/1-x".into(), size: 10 };
    assert!(!r.plan_restore(1, &Some(row.clone()), true));
    assert!(r.plan_restore(1, &Some(row.clone()), false));
    r.finish_restore(row.clone(), Err("Invalid cross-device link".into()));
    r.finish_restore(row.clone(), Ok(()));
    assert_eq!(r.freed, 10);
    assert_eq!(r.deleted, vec!["/Users/a/x".to_string()]);
    assert_eq!(r.errors.len(), 3);
    assert_eq!(r.errors[0].path, "id=42");
    assert_eq!(r.errors[0].message, "no such quarantine entry");
    assert_eq!(r.errors[1].message, "destination already exists");
    assert_eq!(r.errors[2].message, "rename: Invalid cross-device link");
}

#[test]
fn purge_accounting() {
    let mut r = DeleteResult::new();
    let e = QuarantineEntry {
        id: 1,
        original_path: "/Users/a/x".into(),
        quarantine_path: "/q/1-x".into(),
        deleted_at: 0,
        expires_at: 604800,
        size: 7,
    };
    r.finish_purge(e.clone(), Ok(()));
    r.finish_purge(e, Err("busy".into()));
    assert_eq!(r.freed, 7);
    assert_eq!(r.deleted, vec!["/q/1-x".to_string()]);
    assert_eq!(r.errors[0].path, "/q/1-x");
    assert_eq!(r.errors[0].message, "busy");
}

#[test]
fn admin_paths_are_validated_in_order() {
    assert_eq!(admin_path_problem("/Users/a/x"), None);
    assert_eq!(admin_path_problem("/Users").as_deref(), Some("refusing to admin-delete outside /Users"));
    assert_eq!(admin_path_problem("/Users/").as_deref(), Some("refusing to admin-delete /Users root"));
    assert_eq!(admin_path_problem("/Users/a\nb").as_deref(), Some("path contains illegal control character"));
    assert_eq!(admin_path_problem("/Users/a\0").as_deref(), Some("path contains illegal control character"));
    assert_eq!(admin_path_problem("/tmp/x").as_deref(), Some("refusing to admin-delete outside /Users"));
    let ok = vec!["/Users/a/x".to_string(), "/Users/b/y".to_string()];
    assert!(validate_admin_paths(&ok).is_none());
    let bad = vec!["/Users/a/x".to_string(), "/Users/".to_string(), "/etc".to_string()];
    let e = validate_admin_paths(&bad).unwrap();
    assert_eq!(e.path, "/Users/");
    assert_eq!(e.message, "refusing to admin-delete /Users root");
}

#[test]
fn admin_files_and_scripts() {
    assert_eq!(admin_temp_file("/tmp", 123, 456, "list"), "/tmp/mac-storage-clear-admin-123-456.list");
    assert_eq!(
        admin_script("/tmp/l.list"),
        "#!/bin/bash\nwhile IFS= read -r -d '' path; do\ncase \"$path\" in\n/Users/*) ;; \n*) echo \"refusing $path\" >&2; continue ;; \nesac\nrm -rf -- \"$path\" || echo \"failed: $path\" >&2\ndone < '/tmp/l.list'\n"
    );
    assert_eq!(
        admin_osascript("/tmp/s.sh"),
        "do shell script \"/tmp/s.sh\" with administrator privileges with prompt \"Mac Storage Clear needs admin access to delete protected files (typically code-signed app bundles inside /Users).\""
    );
    assert_eq!(admin_failure("").message, "admin-delete failed: user cancelled or osascript errored");
    assert_eq!(admin_failure("boom").message, "admin-delete failed: boom");
    assert_eq!(osascript_launch_error("not found").message, "osascript: not found");
    assert_eq!(planned_size(&vec![Some(10), None, Some(5)]), 15);
}

#[test]
fn admin_outcome_splits_gone_and_present() {
    let paths = vec!["/Users/a".to_string(), "/Users/b".to_string(), "/Users/c".to_string()];
    let r = admin_outcome(paths, &vec![false, true, false], 99);
    assert_eq!(r.freed, 99);
    assert_eq!(r.deleted, vec!["/Users/a".to_string(), "/Users/c".to_string()]);
    assert_eq!(r.errors.len(), 1);
    assert_eq!(r.errors[0].path, "/Users/b");
    assert_eq!(
        r.errors[0].message,
        "still present after admin-delete (likely a virtual file-provider mount)"
    );
}

#[test]
fn retention_and_purge_agree() {
    let t = 1_700_000_000i64;
    let expiry = quarantine_expiry(t);
    assert!(purge_due(expiry, t, Some(7)));
    assert!(!purge_due(expiry - 1, t, Some(7)));
    assert!(!purge_due(t - 1, t, Some(7)));
}

#[test]
fn admin_precheck_answers_early() {
    let empty = admin_precheck(&vec![]).unwrap();
    assert_eq!(empty.freed, 0);
    assert!(empty.deleted.is_empty() && empty.errors.is_empty());
    let bad = admin_precheck(&vec!["/Users/a".to_string(), "/Applications/X.app".to_string()]).unwrap();
    assert_eq!(bad.errors.len(), 1);
    assert_eq!(bad.errors[0].path, "/Applications/X.app");
    assert!(admin_precheck(&vec!["/Users/a/b".to_string()]).is_none());
}

#[test]
fn run_end_records_before_pruning() {
    let mut run = DeleteRun::new(DeleteMode::Quarantine, 2, "/q".to_string(), 5);
    assert!(run.end_steps().is_empty());
    assert!(run.begin("/Users/a/x".to_string()));
    run.finish(Ok(()), 3);
    assert_eq!(run.end_steps(), vec![EndStep::RecordQuarantine, EndStep::PruneIndex]);
    let mut hard = DeleteRun::new(DeleteMode::Hard, 1, "/q".to_string(), 5);
    assert!(hard.begin("/Users/a/y".to_string()));
    hard.finish(Ok(()), 3);
    assert_eq!(hard.end_steps(), vec![EndStep::PruneIndex]);
    let db = || AppError::Sqlite("locked".into());
    assert_eq!(end_result(Ok(()), Ok(()), true), Ok(true));
    assert_eq!(end_result(Ok(()), Err(db()), false), Err(db()));
    assert_eq!(end_result(Err(AppError::Sqlite("full".into())), Err(db()), false), Err(AppError::Sqlite("full".into())));
}

#[test]
fn prune_statement_matches_exact_prefixes() {
    assert_eq!(prune_path_sql(), "DELETE FROM files WHERE full_path = ?1 OR substr(full_path, 1, length(?2)) = ?2");
    assert_eq!(
        insert_quarantine_sql(),
        "INSERT INTO quarantine (original_path, quarantine_path, deleted_at, expires_at, size) VALUES (?1, ?2, ?3, ?4, ?5)"
    );
}

#[test]
fn decimal_rendering_extremes() {
    let mut r = DeleteResult::new();
    assert!(!r.plan_restore(i64::MIN, &None, false));
    assert!(!r.plan_restore(0, &None, false));
    assert_eq!(r.errors[0].path, "id=-9223372036854775808");
    assert_eq!(r.errors[1].path, "id=0");
    assert_eq!(
        quarantine_dest("/q", "/Users/a/f", i64::MAX, u64::MAX),
        "/q/9223372036854775807-18446744073709551615-f"
    );
    assert_eq!(quarantine_dest("/q", "/Users/a/f", -10, 10), "/q/-10-10-f");
}

#[test]
fn parent_traversal_out_of_users_is_refused() {
    assert_eq!(
        admin_path_problem("/Users/../private/etc").as_deref(),
        Some("refusing to admin-delete outside /Users")
    );
    assert_eq!(admin_path_problem("/Users/a/..").as_deref(), Some("refusing to admin-delete /Users root"));
    assert_eq!(admin_path_problem("/Users/a/../../etc").as_deref(), Some("refusing to admin-delete outside /Users"));
    assert_eq!(admin_path_problem("/Users/a/../b/x"), None);
    assert_eq!(admin_path_problem("/Users/./a"), None);
    let pre = admin_precheck(&vec!["/Users/../private/etc".to_string()]).unwrap();
    assert_eq!(pre.freed, 0);
    assert!(pre.deleted.is_empty());
    assert_eq!(pre.errors[0].path, "/Users/../private/etc");
    assert_eq!(pre.errors[0].message, "refusing to admin-delete outside /Users");

    let mut run = DeleteRun::new(DeleteMode::Hard, 4, "/q".to_string(), 0);
    assert!(!run.begin("/Users/../tmp/x".to_string()));
    assert!(!run.begin("/Users/a/../../tmp".to_string()));
    assert!(run.begin("/Users/a/../b/x".to_string()));
    run.finish(Ok(()), 1);
    assert!(!run.begin("../Users/a".to_string()));
    let errors = run.errors();
    assert_eq!(errors.len(), 3);
    assert_eq!(errors[0].path, "/Users/../tmp/x");
    assert_eq!(errors[0].message, "refusing to delete outside /Users");
}

#[test]
fn cancel_stops_before_the_next_path() {
    let mut run = DeleteRun::new(DeleteMode::Trash, 3, "/q".to_string(), 0);
    assert_eq!(run.next_path("/Users/a/x".to_string(), false), Admission::Admitted);
    run.finish(Ok(()), 5);
    assert_eq!(run.next_path("/etc/x".to_string(), false), Admission::Refused);
    assert_eq!(run.next_path("/Users/a/y".to_string(), true), Admission::Stop);
    assert_eq!(run.files_seen(), 2);
    assert_eq!(run.current_path().as_deref(), Some("/etc/x"));
}

#[test]
fn snapshot_reports_the_run() {
    let mut run = DeleteRun::new(DeleteMode::Quarantine, 2, "/q".to_string(), 100);
    assert!(run.begin("/Users/a/x".to_string()));
    run.finish(Ok(()), 4096);
    let extra = vec![DeleteError { path: String::new(), message: "sqlite error: locked".into() }];
    let s = run.status(9, "running".into(), &extra, 100, None, 103);
    assert_eq!(s.delete_id, 9);
    assert_eq!(s.mode, DeleteMode::Quarantine);
    assert_eq!(s.files_seen, 1);
    assert_eq!(s.total_files, 2);
    assert_eq!(s.bytes_freed, 4096);
    assert_eq!(s.current_path.as_deref(), Some("/Users/a/x"));
    assert_eq!(s.errors.len(), 1);
    assert_eq!(s.errors[0].message, "sqlite error: locked");
    assert_eq!(s.elapsed_ms, 3000);
    let done = run.status(9, "done".into(), &vec![], 100, Some(105), 999);
    assert_eq!(done.elapsed_ms, 5000);
    assert_eq!(done.finished_at, Some(105));
}
