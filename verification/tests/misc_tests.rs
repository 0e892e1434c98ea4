use mac_storage_clear::categories::screenshots::{expand_tilde, locations, Screenshots};
use mac_storage_clear::categories::trash::{trash_dirs_sql, Trash};
use mac_storage_clear::categories::{
    all_summaries, find, item_from_row, placeholders, registry, Category, CategoryKind, Risk, SummaryPlan,
};
use mac_storage_clear::commands::{
    check_scan_roots, check_scan_slot, default_scan_roots, get_build_info, query_limit,
};
use mac_storage_clear::error::AppError;
use mac_storage_clear::helper::helper_reply;
use mac_storage_clear::index::schema::{migration_sql, pending_migrations, CURRENT_VERSION};
use mac_storage_clear::privileged::disabled::Disabled;
use mac_storage_clear::privileged::helper_client::HelperClient;
use mac_storage_clear::privileged::Privileged;
use mac_storage_clear::scope::full_disk::FullDiskScope;
use mac_storage_clear::scope::sandboxed::SandboxedScope;
use mac_storage_clear::scope::ScanScope;
use mac_storage_clear::text::{contains_char, lower_eq, replaced, same_text, starts_with};

#[test]
fn error_messages() {
    assert_eq!(AppError::Io("denied".into()).message(), "io error: denied");
    assert_eq!(AppError::ScopeDenied("/x".into()).message(), "scope denied: /x");
    assert_eq!(
        AppError::PrivilegedUnavailable.message(),
        "privileged operation requires direct-download build"
    );
    assert_eq!(AppError::PathNotAllowed("/y".into()).message(), "path not allowed: /y");
    assert_eq!(AppError::NotImplemented.message(), "not implemented yet");
    assert_eq!(AppError::Scan("no roots provided".into()).message(), "scan error: no roots provided");
    assert_eq!(AppError::Sqlite("locked".into()).message(), "sqlite error: locked");
    assert_eq!(AppError::ScanAlreadyRunning.message(), "a scan is already running");
}

#[test]
fn text_helpers() {
    assert!(starts_with("/Users/a", "/Users/"));
    assert!(!starts_with("/Users", "/Users/"));
    assert!(contains_char("a\nb", '\n'));
    assert!(!contains_char("ab", '\0'));
    assert!(same_text("é", "é"));
    assert!(!same_text("ab", "abc"));
    assert_eq!(replaced("a/b/c", '/', '_'), "a_b_c");
    assert!(lower_eq("APP", "app"));
    assert!(!lower_eq("APPS", "app"));
}

#[test]
fn sandboxed_scope_reaches_home_and_selected_folders() {
    let home = Some("/Users/me");
    let mut s = SandboxedScope::new();
    assert!(s.allows("/Users/me", home));
    assert!(s.allows("/Users/me/Documents/x", home));
    assert!(!s.allows("/Users/meow", home));
    assert!(!s.allows("/Volumes/Ext/x", home));
    s.add_user_selected("/Volumes/Ext".to_string());
    assert!(s.allows("/Volumes/Ext/x", home));
    assert_eq!(s.allowed_roots(home), vec!["/Volumes/Ext".to_string(), "/Users/me".to_string()]);
    // the home directory is read at each call: a changed HOME is followed
    assert!(s.allows("/Users/other/x", Some("/Users/other")));
    assert!(!s.allows("/Users/me/x", Some("/Users/other")));
    // ".." is resolved before the comparison
    let alice = SandboxedScope::new();
    let home = Some("/Users/alice");
    assert!(alice.allows("/Users/alice/Documents/a.txt", home));
    assert!(!alice.allows("/Users/bob/a.txt", home));
    assert!(!alice.allows("/Users/alice2/a.txt", home));
    assert!(!alice.allows("/Users/alice/../bob/a.txt", home));
    assert!(alice.allows("/Users/alice/x/../y", home));
    assert!(!alice.allows("/Users/alice/..", home));
    let none = SandboxedScope::default();
    assert!(!none.allows("/Users/me", None));
    assert!(none.allowed_roots(None).is_empty());
    assert_eq!(none.human_name(), "Sandboxed (App Store build)");
}

#[test]
fn full_disk_scope() {
    let s = FullDiskScope::new();
    assert!(s.allows("/anything", None));
    assert!(s.allows("/anything", Some("/Users/me")));
    assert_eq!(s.allowed_roots(Some("/Users/me")), vec!["/Users", "/Library", "/private/var/folders"]);
    assert_eq!(s.human_name(), "Full Disk (direct download build)");
    let _ = FullDiskScope::default();
}

#[test]
fn privileged_backends() {
    let mut d = Disabled::new();
    assert!(!d.is_available());
    assert_eq!(d.ensure_authorized(), Err(AppError::PrivilegedUnavailable));
    assert_eq!(d.read_dir_entries("/x"), Err(AppError::PrivilegedUnavailable));
    assert_eq!(d.unlink("/x"), Err(AppError::PrivilegedUnavailable));
    assert_eq!(d.move_to_quarantine("/x", "/y"), Err(AppError::PrivilegedUnavailable));
    let mut h = HelperClient::new();
    assert!(h.is_available());
    assert_eq!(h.ensure_authorized(), Err(AppError::NotImplemented));
    assert_eq!(h.read_dir_entries("/x"), Err(AppError::NotImplemented));
    assert_eq!(h.unlink("/x"), Err(AppError::NotImplemented));
    assert_eq!(h.move_to_quarantine("/x", "/y"), Err(AppError::NotImplemented));
    let _ = (Disabled::default(), HelperClient::default());
}

#[test]
fn category_registry_and_summaries() {
    assert_eq!(registry(), vec![CategoryKind::Trash, CategoryKind::Screenshots]);
    assert_eq!(find("screenshots"), Some(CategoryKind::Screenshots));
    assert_eq!(find("trash"), Some(CategoryKind::Trash));
    assert_eq!(find("xcode"), None);
    assert_eq!(Trash.id(), "trash");
    assert_eq!(Screenshots.name(), "Screenshots");
    assert_eq!(CategoryKind::Trash.risk(), Risk::Safe);
    let s = all_summaries(vec![Ok((100, 3)), Err(AppError::Sqlite("x".into()))]);
    assert_eq!(s[0].id, "trash");
    assert_eq!(s[0].total_size, 100);
    assert_eq!(s[0].item_count, 3);
    assert_eq!(s[1].id, "screenshots");
    assert_eq!(s[1].total_size, 0);
    assert_eq!(s[1].item_count, 0);
    assert_eq!(
        s[1].description,
        "Screen captures from macOS's built-in tool (and CleanShot). Review and bulk-delete."
    );
}

#[test]
fn category_queries() {
    assert_eq!(placeholders(0), "");
    assert_eq!(placeholders(1), "?");
    assert_eq!(placeholders(3), "?,?,?");
    let sql = Trash.summary_sql(2);
    assert!(sql.ends_with("AND parent_path IN (?,?)"));
    let sql = CategoryKind::Trash.items_sql(1);
    assert!(sql.contains("IN (?)\n             ORDER BY recursive_size DESC\n             LIMIT ?"));
    let sql = CategoryKind::Screenshots.summary_sql(2);
    assert!(sql.contains("parent_path IN (?,?)\n               AND (name LIKE 'Screen Shot %'"));
    let sql = Screenshots.items_sql(1);
    assert!(sql.ends_with("ORDER BY mtime DESC\n             LIMIT ?"));
    assert!(trash_dirs_sql().contains("name = '.Trash'"));
    let it = item_from_row("/p".into(), 5, Some(9), 2, None);
    assert!(it.is_dir);
}

#[test]
fn screenshot_locations() {
    assert_eq!(expand_tilde("~/Pictures/Shots", Some("/Users/me")), "/Users/me/Pictures/Shots");
    assert_eq!(expand_tilde("~/Pictures", None), "~/Pictures");
    assert_eq!(expand_tilde("/abs", Some("/Users/me")), "/abs");
    assert_eq!(expand_tilde("~//abs", Some("/Users/me")), "/abs");
    assert_eq!(locations(Some("/Users/me"), None), vec!["/Users/me/Desktop".to_string()]);
    assert_eq!(
        locations(Some("/Users/me"), Some("  ~/Shots\n")),
        vec!["/Users/me/Desktop".to_string(), "/Users/me/Shots".to_string()]
    );
    assert_eq!(locations(Some("/Users/me"), Some("/Users/me/Desktop\n")), vec!["/Users/me/Desktop".to_string()]);
    assert_eq!(locations(Some("/Users/me"), Some(" \n")), vec!["/Users/me/Desktop".to_string()]);
    assert_eq!(locations(None, Some("~/Shots")), vec!["~/Shots".to_string()]);
    assert!(locations(None, None).is_empty());
}

#[test]
fn commands_decisions() {
    let b = get_build_info("0.1.0", false, true);
    assert_eq!(b.build, "devid");
    assert!(b.privileged && !b.sandboxed);
    let b = get_build_info("0.1.0", true, false);
    assert_eq!(b.build, "appstore");
    assert!(b.sandboxed);
    assert_eq!(default_scan_roots(Some("/Users/me".into())), vec!["/Users/me".to_string()]);
    assert!(default_scan_roots(Some(String::new())).is_empty());
    assert!(default_scan_roots(None).is_empty());
    assert_eq!(check_scan_roots(&vec![]), Err(AppError::Scan("no roots provided".into())));
    assert_eq!(check_scan_roots(&vec!["/".into()]), Ok(()));
    assert_eq!(query_limit(None), 100);
    assert_eq!(query_limit(Some(7)), 7);
    assert_eq!(check_scan_slot(Some("running")), Err(AppError::ScanAlreadyRunning));
    assert_eq!(check_scan_slot(Some("done")), Ok(()));
    assert_eq!(check_scan_slot(None), Ok(()));
}

#[test]
fn migrations_plan() {
    assert_eq!(pending_migrations(0), vec![1, 2, 3]);
    assert_eq!(pending_migrations(-3), vec![1, 2, 3]);
    assert_eq!(pending_migrations(1), vec![2, 3]);
    assert_eq!(pending_migrations(2), vec![3]);
    assert!(pending_migrations(CURRENT_VERSION).is_empty());
    assert!(pending_migrations(9).is_empty());
}

#[test]
fn helper_replies() {
    assert_eq!(helper_reply("   \t"), None);
    assert_eq!(helper_reply(""), None);
    assert_eq!(
        helper_reply("{\"op\":\"stat\"}").as_deref(),
        Some("{\"error\":\"helper not implemented in Phase 0 — see docs/ARCHITECTURE.md\",\"ok\":false}")
    );
}

#[test]
fn migration_steps_have_their_statements() {
    assert!(migration_sql(1).contains("CREATE TABLE IF NOT EXISTS scan_runs"));
    assert!(migration_sql(1).contains("CREATE TABLE IF NOT EXISTS quarantine"));
    assert!(migration_sql(2).contains("CREATE INDEX IF NOT EXISTS files_own_size_files"));
    assert!(migration_sql(3).contains("CREATE INDEX IF NOT EXISTS files_drill_in"));
    for step in pending_migrations(0) {
        assert!(!migration_sql(step).is_empty());
    }
}

#[test]
fn categories_without_folders_are_empty() {
    match CategoryKind::Trash.summary_plan(0) {
        SummaryPlan::Answer(size, count) => assert_eq!((size, count), (0, 0)),
        SummaryPlan::Query(_) => panic!("no query without folders"),
    }
    match CategoryKind::Screenshots.summary_plan(2) {
        SummaryPlan::Query(sql) => assert_eq!(sql, CategoryKind::Screenshots.summary_sql(2)),
        SummaryPlan::Answer(..) => panic!("folders need a query"),
    }
    assert!(CategoryKind::Screenshots.items_plan(0).is_none());
    assert_eq!(CategoryKind::Trash.items_plan(1), Some(CategoryKind::Trash.items_sql(1)));
}
