use mac_storage_clear::scanner::walk::{
    allocated_bytes, as_signed, descends_into, is_opaque_bundle, is_skipped_name, keeps_child, to_entry, Entry,
    EntryMetadata,
};
use mac_storage_clear::scanner::writer::{batch_rows, WriterEvent, WriterState, BATCH_SIZE};
use mac_storage_clear::scanner::queries::{aggregation_depths, largest_file, treemap_node};
use mac_storage_clear::scanner::{elapsed_ms, final_status, scan_status};
use mac_storage_clear::error::AppError;

fn entry(path: &str, dev: i64, inode: i64, size: i64, is_dir: bool) -> Entry {
    Entry {
        full_path: path.to_string(),
        parent_path: Some("/Users/a".to_string()),
        name: path.rsplit('/').next().unwrap().to_string(),
        depth: 1,
        is_dir,
        is_symlink: false,
        size,
        logical_size: size,
        inode,
        dev,
        mtime: 10,
        ctime: 11,
        btime: 12,
    }
}

#[test]
fn opaque_bundles_are_recognised_case_insensitively() {
    assert!(is_opaque_bundle("/Applications/Safari.app"));
    assert!(is_opaque_bundle("/Users/a/Lib.FrameWork"));
    assert!(is_opaque_bundle("/Users/a/Photos Library.photoslibrary"));
    assert!(is_opaque_bundle("/x/cat.lrcat"));
    assert!(is_opaque_bundle("/x/p.fcpbundle"));
    assert!(is_opaque_bundle("/x/m.imovielibrary"));
    assert!(!is_opaque_bundle("/Users/a/app"));
    assert!(!is_opaque_bundle("/Users/a/.app"));
    assert!(!is_opaque_bundle("/Users/a/notes.txt"));
    assert!(!is_opaque_bundle("/Users/a/x.apps"));
}

#[test]
fn skip_names_and_descent() {
    assert!(is_skipped_name("CloudStorage"));
    assert!(is_skipped_name("Mobile Documents"));
    assert!(!is_skipped_name("cloudstorage"));
    assert!(!keeps_child("CloudStorage"));
    assert!(keeps_child("Documents"));
    assert!(descends_into("/Users/a/Documents", true));
    assert!(!descends_into("/Users/a/Xcode.app", true));
    assert!(!descends_into("/Users/a/file.txt", false));
}

#[test]
fn allocated_bytes_saturates() {
    assert_eq!(allocated_bytes(0), 0);
    assert_eq!(allocated_bytes(8), 4096);
    assert_eq!(allocated_bytes(0x3f_ffff_ffff_ffff), 0x3f_ffff_ffff_ffff * 512);
    assert_eq!(allocated_bytes(0x40_0000_0000_0000), i64::MAX);
    assert_eq!(allocated_bytes(u64::MAX), -512);
    assert_eq!(allocated_bytes(1u64 << 63), i64::MIN);
    assert_eq!(as_signed(u64::MAX), -1);
    assert_eq!(as_signed(5), 5);
}

#[test]
fn to_entry_maps_metadata() {
    let meta = EntryMetadata {
        blocks: 16,
        len: 7000,
        ino: 42,
        dev: 3,
        mtime: 100,
        ctime: 200,
        created_secs: Some(50),
    };
    let e = to_entry("/Users/a/f.txt".to_string(), "f.txt".to_string(), 2, false, false, Some(meta)).unwrap();
    assert_eq!(e.parent_path.as_deref(), Some("/Users/a"));
    assert_eq!(e.size, 8192);
    assert_eq!(e.logical_size, 7000);
    assert_eq!(e.depth, 2);
    assert_eq!(e.inode, 42);
    assert_eq!(e.btime, 50);
    let root = to_entry("/".to_string(), "/".to_string(), 0, true, false, Some(EntryMetadata { created_secs: None, ..meta })).unwrap();
    assert_eq!(root.parent_path, None);
    assert_eq!(root.btime, 0);
    assert!(to_entry("/x".to_string(), "x".to_string(), 0, false, false, None).is_none());
}

#[test]
fn clones_store_zero_after_first_occurrence() {
    let mut ws = WriterState::new();
    // same (dev, inode) twice in one stream, plus a directory sharing a key
    let events = vec![
        entry("/Users/a/one", 1, 7, 4096, false),
        entry("/Users/a/two", 1, 7, 4096, false),
        entry("/Users/a/dir", 1, 9, 128, true),
        entry("/Users/a/dir2", 1, 9, 128, true),
    ];
    for e in events {
        let out = ws.step(WriterEvent::Received(e), false);
        assert!(out.rows.is_empty());
        assert!(!out.stop);
    }
    // a repeated (dev, inode) of a file counts once even inside one batch;
    // directories always count
    assert_eq!(ws.total_files(), 4);
    assert_eq!(ws.total_bytes(), 4096 + 128 * 2);
    let out = ws.step(WriterEvent::Disconnected, false);
    assert!(out.stop);
    assert_eq!(out.rows.len(), 4);
    assert_eq!(out.rows[0].is_clone, 0);
    assert_eq!(out.rows[0].size, 4096);
    assert_eq!(out.rows[1].is_clone, 1);
    assert_eq!(out.rows[1].size, 0);
    assert_eq!(out.rows[2].is_clone, 0);
    assert_eq!(out.rows[3].is_clone, 0);
    assert_eq!(out.rows[3].size, 128);
    assert_eq!(out.rows[2].is_dir, 1);
}

#[test]
fn full_batch_is_flushed_and_counts_published() {
    let mut ws = WriterState::new();
    let mut flushed = 0;
    let mut reported = 0;
    for i in 0..BATCH_SIZE as i64 {
        let out = ws.step(WriterEvent::Received(entry(&format!("/Users/a/f{i}"), 1, i, 512, false)), false);
        if out.report_path.is_some() {
            reported += 1;
            assert_eq!(out.report_path.as_deref(), Some("/Users/a/f999"));
        }
        if !out.rows.is_empty() {
            assert!(out.publish_counts);
            flushed += out.rows.len();
        } else {
            assert!(!out.publish_counts);
        }
    }
    assert_eq!(flushed, 1000);
    assert_eq!(reported, 1);
    // a later entry with a written inode is not counted again
    let out = ws.step(WriterEvent::Received(entry("/Users/a/again", 1, 0, 512, false)), false);
    assert!(out.rows.is_empty());
    assert_eq!(ws.total_bytes(), 1000 * 512);
    let out = ws.step(WriterEvent::Disconnected, false);
    assert_eq!(out.rows.len(), 1);
    assert_eq!(out.rows[0].is_clone, 1);
}

#[test]
fn cancel_drops_pending_entries() {
    let mut ws = WriterState::new();
    ws.step(WriterEvent::Received(entry("/Users/a/x", 1, 1, 10, false)), false);
    let out = ws.step(WriterEvent::TimedOut, false);
    assert!(!out.stop);
    let out = ws.step(WriterEvent::Received(entry("/Users/a/y", 1, 2, 10, false)), true);
    assert!(out.stop);
    assert!(out.rows.is_empty());
    assert!(ws.cancelled());
    assert_eq!(ws.total_files(), 1);
    assert!(ws.final_rows().is_empty());
    assert_eq!(final_status(&Ok(ws.cancelled())), "cancelled");
}

#[test]
fn cancel_seen_at_disconnect_records_cancelled() {
    let mut ws = WriterState::new();
    let out = ws.step(WriterEvent::Received(entry("/Users/a/x", 1, 1, 10, false)), false);
    assert!(!out.stop);
    let out = ws.step(WriterEvent::Disconnected, true);
    assert!(out.stop);
    assert!(out.rows.is_empty());
    assert!(ws.cancelled());
    assert!(ws.final_rows().is_empty());
    let plan = ws.finish_plan();
    assert_eq!(plan.status, "cancelled");
    assert!(!plan.aggregate);
    assert_eq!(plan.file_count, 1);
    assert_eq!(plan.bytes_seen, 10);
}

#[test]
fn byte_counter_equals_stored_sizes() {
    let mut ws = WriterState::new();
    let mut stored: i64 = 0;
    let keys = [(1, 1, 100), (1, 1, 100), (1, 2, 50), (2, 1, 70), (1, 2, 50)];
    for (i, (dev, ino, size)) in keys.iter().enumerate() {
        let out = ws.step(WriterEvent::Received(entry(&format!("/Users/a/f{i}"), *dev, *ino, *size, false)), false);
        stored += out.rows.iter().map(|r| r.size).sum::<i64>();
    }
    let out = ws.step(WriterEvent::Disconnected, false);
    stored += out.rows.iter().map(|r| r.size).sum::<i64>();
    assert_eq!(stored, 220);
    assert_eq!(ws.total_bytes(), 220);
}

#[test]
fn batches_compose_with_carried_inode_set() {
    let mut ws = WriterState::new();
    let out = ws.step(WriterEvent::TimedOut, true);
    assert!(out.stop && ws.cancelled());
    let mut seen = dashmap::DashSet::new();
    let a = batch_rows(&mut seen, vec![entry("/Users/a/1", 2, 5, 100, false)]);
    let b = batch_rows(&mut seen, vec![entry("/Users/a/2", 2, 5, 100, false), entry("/Users/a/3", 2, 6, 100, false)]);
    assert_eq!(a[0].is_clone, 0);
    assert_eq!(b[0].is_clone, 1);
    assert_eq!(b[0].size, 0);
    assert_eq!(b[1].is_clone, 0);
    assert_eq!(b[1].size, 100);
}

#[test]
fn elapsed_and_status() {
    assert_eq!(elapsed_ms(100, Some(103), 999), 3000);
    assert_eq!(elapsed_ms(100, None, 105), 5000);
    assert_eq!(elapsed_ms(100, None, 50), 0);
    assert_eq!(elapsed_ms(0, Some(u64::MAX), 0), u64::MAX);
    let s = scan_status(7, "running".to_string(), 3, 4, None, 10, None, 12);
    assert_eq!(s.elapsed_ms, 2000);
    assert_eq!(s.scan_id, 7);
    assert_eq!(final_status(&Ok(false)), "done");
    assert_eq!(final_status(&Err(AppError::NotImplemented)), "failed");
}

#[test]
fn query_rows_and_depth_plan() {
    let n = treemap_node("a".into(), "/a".into(), 9, 1);
    assert!(n.is_dir);
    assert_eq!(n.child_count, 0);
    let n = treemap_node("b".into(), "/b".into(), 9, 0);
    assert!(!n.is_dir);
    let f = largest_file("/a/b".into(), "b".into(), 5, None);
    assert_eq!(f.size, 5);
    assert_eq!(aggregation_depths(3), vec![2, 1, 0]);
    assert!(aggregation_depths(0).is_empty());
    assert!(aggregation_depths(-4).is_empty());
}
