use rand_guard::abi::{
    EventKind, FileRenameAtEvent, FileRenameEvent, FileWriteEvent, NetworkBindEvent, EVENT_SCHEMA_VERSION,
    EVENT_FLAG_FILENAME_TRUNCATED,
};
use rand_guard::config::{FileConfig, NetworkDetectionRule, NetworkDirection, PersistenceRule};
use rand_guard::normalize::{
    normalize_file_rename, normalize_file_renameat, normalize_file_write, normalize_network_bind, NormalizedEvent,
};
use rand_guard::process_table::ProcessTable;

fn nm_watch_etc() -> FileConfig {
    FileConfig {
        enabled: true,
        hooks: vec![],
        watch_paths: vec!["/etc".to_string()],
        watch_patterns: vec![],
        exclude_paths: vec![],
    }
}

fn nm_rename(old: &str, new: &str) -> FileRenameEvent {
    let mut e = FileRenameEvent::default();
    e.header.kind = EventKind::FileRename.as_u16();
    e.header.version = EVENT_SCHEMA_VERSION;
    e.header.size = FileRenameEvent::SIZE;
    e.header.flags = EVENT_FLAG_FILENAME_TRUNCATED;
    e.old_filename[..old.len()].copy_from_slice(old.as_bytes());
    e.new_filename[..new.len()].copy_from_slice(new.as_bytes());
    e
}

#[test]
fn rename_passes_when_either_name_passes_and_detects_on_new_name() {
    let mut table = ProcessTable::new();
    let rules = vec![PersistenceRule {
        name: "cron".to_string(),
        paths: vec!["/etc/cron.d/".to_string()],
        patterns: vec![],
        operations: vec!["file_rename".to_string()],
    }];
    let e = nm_rename("/tmp/job", "/etc/cron.d/job");
    match normalize_file_rename(&e, &mut table, Some(&nm_watch_etc()), &rules) {
        Some(NormalizedEvent::FileRename(r)) => {
            assert_eq!(r.old_filename, "/tmp/job");
            assert_eq!(r.new_filename, "/etc/cron.d/job");
            assert!(r.filename_truncated);
            assert!(r.alert);
            assert_eq!(r.detection_type, Some("cron".to_string()));
        }
        _ => panic!("expected a rename"),
    }
    let outside = nm_rename("/tmp/a", "/tmp/b");
    assert!(normalize_file_rename(&outside, &mut table, Some(&nm_watch_etc()), &rules).is_none());
}

#[test]
fn write_is_filtered_on_its_resolved_path() {
    let mut table = ProcessTable::new();
    let mut e = FileWriteEvent::default();
    e.header.kind = EventKind::FileWrite.as_u16();
    e.header.version = EVENT_SCHEMA_VERSION;
    e.header.size = FileWriteEvent::SIZE;
    e.fd = 4;
    e.count = 10;
    assert!(normalize_file_write(&e, &mut table, Some(&nm_watch_etc()), &[], "").is_none());
    match normalize_file_write(&e, &mut table, Some(&nm_watch_etc()), &[], "/etc/hosts") {
        Some(NormalizedEvent::FileWrite(w)) => {
            assert_eq!(w.resolved_path, "/etc/hosts");
            assert!(!w.alert);
            assert_eq!(w.detection_type, None);
        }
        _ => panic!("expected a write"),
    }
    assert!(normalize_file_write(&e, &mut table, None, &[], "").is_some());
}

#[test]
fn bind_is_inbound_for_port_detections() {
    let mut table = ProcessTable::new();
    let mut e = NetworkBindEvent::default();
    e.header.kind = EventKind::NetworkBind.as_u16();
    e.header.version = EVENT_SCHEMA_VERSION;
    e.header.size = NetworkBindEvent::SIZE;
    e.comm[..2].copy_from_slice(b"nc");
    e.family = 2;
    e.port = 4444;
    e.ipv4_addr = 0;
    let inbound = vec![NetworkDetectionRule {
        name: "listener".to_string(),
        directions: vec![NetworkDirection::Inbound],
        ports: vec![4444],
        process_names: vec!["nc".to_string()],
    }];
    match normalize_network_bind(&e, &mut table, &inbound) {
        Some(NormalizedEvent::NetworkBind(b)) => {
            assert!(b.alert);
            assert_eq!(b.local_addr, "0.0.0.0");
            assert_eq!(b.local_port, 4444);
            assert_eq!(b.comm, "nc");
        }
        _ => panic!("expected a bind"),
    }
}

#[test]
fn renameat_with_swapped_names_is_kept_and_alerts_alike() {
    let mut table = ProcessTable::new();
    let rules = vec![PersistenceRule {
        name: "cron".to_string(),
        paths: vec!["/etc/cron.d/".to_string()],
        patterns: vec![],
        operations: vec!["file_rename".to_string()],
    }];
    let make = |old: &str, new: &str| {
        let mut e = FileRenameAtEvent::default();
        e.header.kind = EventKind::FileRenameAt.as_u16();
        e.header.version = EVENT_SCHEMA_VERSION;
        e.header.size = FileRenameAtEvent::SIZE;
        e.old_filename[..old.len()].copy_from_slice(old.as_bytes());
        e.new_filename[..new.len()].copy_from_slice(new.as_bytes());
        e
    };
    let alert_of = |r: Option<NormalizedEvent>| match r {
        Some(NormalizedEvent::FileRenameAt(f)) => Some(f.alert),
        None => None,
        _ => panic!("expected a renameat"),
    };
    let cfg = nm_watch_etc();
    for (a, b) in [("/tmp/job", "/etc/cron.d/job"), ("/tmp/a", "/etc/hosts"), ("/tmp/a", "/tmp/b")] {
        let forward = alert_of(normalize_file_renameat(&make(a, b), &mut table, Some(&cfg), &rules));
        let back = alert_of(normalize_file_renameat(&make(b, a), &mut table, Some(&cfg), &rules));
        assert_eq!(forward, back);
    }
    assert_eq!(
        alert_of(normalize_file_renameat(&make("/tmp/job", "/etc/cron.d/job"), &mut table, Some(&cfg), &rules)),
        Some(true)
    );
    assert_eq!(alert_of(normalize_file_renameat(&make("/tmp/a", "/tmp/b"), &mut table, Some(&cfg), &rules)), None);
}
