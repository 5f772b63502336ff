use rand_guard::abi::{
    EventKind, ExecSource, ExecSyscallEvent, FileOpenEvent, FileWriteEvent, ProcessExecEvent,
    EVENT_SCHEMA_VERSION,
};
use rand_guard::config::FileConfig;
use rand_guard::dispatch::{dispatch_event, fd_to_resolve, DispatchContext, DispatchResult};
use rand_guard::normalize::NormalizedEvent;
use rand_guard::process_table::ProcessTable;

struct TestHarness {
    table: ProcessTable,
    start_seen: bool,
    rel_seen: bool,
    file_seen: bool,
}

impl TestHarness {
    fn new() -> Self {
        Self { table: ProcessTable::new(), start_seen: false, rel_seen: false, file_seen: false }
    }

    fn ctx<'a>(&'a mut self, file_config: Option<&'a FileConfig>) -> DispatchContext<'a> {
        DispatchContext {
            table: &mut self.table,
            file_config,
            persistence_detections: &[],
            network_detections: &[],
            ci_smoke: false,
            ci_smoke_start_seen: &mut self.start_seen,
            ci_smoke_rel_or_exit_seen: &mut self.rel_seen,
            ci_smoke_file_open_seen: &mut self.file_seen,
        }
    }
}

#[test]
fn too_short_bytes_returns_invalid_schema() {
    let mut h = TestHarness::new();
    let mut ctx = h.ctx(None);
    let result = dispatch_event(&[0u8; 4], &mut ctx, "");
    assert!(matches!(result, DispatchResult::InvalidSchema));
}

#[test]
fn wrong_version_returns_invalid_schema() {
    let mut h = TestHarness::new();
    let mut ctx = h.ctx(None);
    let mut event = ProcessExecEvent::default();
    event.header.kind = EventKind::ProcessExec.as_u16();
    event.header.version = EVENT_SCHEMA_VERSION + 1;
    event.header.size = ProcessExecEvent::SIZE;
    let bytes = event.to_bytes();
    let result = dispatch_event(&bytes, &mut ctx, "");
    assert!(matches!(result, DispatchResult::InvalidSchema));
}

#[test]
fn unknown_kind_returns_unsupported() {
    let mut h = TestHarness::new();
    let mut ctx = h.ctx(None);
    let mut event = ProcessExecEvent::default();
    event.header.kind = 9999;
    event.header.version = EVENT_SCHEMA_VERSION;
    event.header.size = ProcessExecEvent::SIZE;
    let bytes = event.to_bytes();
    let result = dispatch_event(&bytes, &mut ctx, "");
    assert!(matches!(result, DispatchResult::Unsupported));
}

#[test]
fn exec_syscall_returns_internal() {
    let mut h = TestHarness::new();
    let mut ctx = h.ctx(None);
    let mut event = ExecSyscallEvent::default();
    event.header.kind = EventKind::ExecSyscall.as_u16();
    event.header.version = EVENT_SCHEMA_VERSION;
    event.header.size = ExecSyscallEvent::SIZE;
    event.header.pid = 42;
    event.header.tid = 42;
    event.source = ExecSource::Execve.as_u8();
    let bytes = event.to_bytes();
    let result = dispatch_event(&bytes, &mut ctx, "");
    assert!(matches!(result, DispatchResult::Internal));
}

#[test]
fn valid_exec_returns_normalized() {
    let mut h = TestHarness::new();
    let mut ctx = h.ctx(None);
    let mut event = ProcessExecEvent::default();
    event.header.kind = EventKind::ProcessExec.as_u16();
    event.header.version = EVENT_SCHEMA_VERSION;
    event.header.size = ProcessExecEvent::SIZE;
    event.header.timestamp_ns = 1000;
    event.header.pid = 42;
    event.header.tid = 42;
    event.comm[..2].copy_from_slice(b"sh");
    event.filename[..7].copy_from_slice(b"/bin/sh");
    event.filename_len = 7;
    let bytes = event.to_bytes();
    let result = dispatch_event(&bytes, &mut ctx, "");
    assert!(matches!(result, DispatchResult::Normalized(_)));
}

#[test]
fn filtered_file_event_returns_filtered() {
    let mut h = TestHarness::new();
    let config = FileConfig {
        enabled: true,
        hooks: vec!["openat".to_string()],
        watch_paths: vec!["/etc".to_string()],
        watch_patterns: vec![],
        exclude_paths: vec![],
    };
    let mut ctx = h.ctx(Some(&config));
    let mut event = FileOpenEvent::default();
    event.header.kind = EventKind::FileOpen.as_u16();
    event.header.version = EVENT_SCHEMA_VERSION;
    event.header.size = FileOpenEvent::SIZE;
    event.header.timestamp_ns = 4000;
    event.header.pid = 42;
    event.header.tid = 42;
    let path = b"/var/log/syslog";
    event.filename[..path.len()].copy_from_slice(path);
    event.filename_len = path.len() as u16;
    let bytes = event.to_bytes();
    let result = dispatch_event(&bytes, &mut ctx, "");
    assert!(matches!(result, DispatchResult::Filtered));
}

#[test]
fn wrong_declared_size_returns_invalid_schema() {
    let mut h = TestHarness::new();
    let mut ctx = h.ctx(None);
    let mut event = ProcessExecEvent::default();
    event.header.kind = EventKind::ProcessExec.as_u16();
    event.header.version = EVENT_SCHEMA_VERSION;
    event.header.size = ProcessExecEvent::SIZE - 1;
    let bytes = event.to_bytes();
    assert!(matches!(dispatch_event(&bytes, &mut ctx, ""), DispatchResult::InvalidSchema));
    let mut ok = ProcessExecEvent::default();
    ok.header.kind = EventKind::ProcessExec.as_u16();
    ok.header.version = EVENT_SCHEMA_VERSION;
    ok.header.size = ProcessExecEvent::SIZE;
    let truncated = ok.to_bytes();
    assert!(matches!(
        dispatch_event(&truncated[..truncated.len() - 1], &mut ctx, ""),
        DispatchResult::InvalidSchema
    ));
}

#[test]
fn write_record_uses_resolved_path_and_smoke_flags_follow_kinds() {
    let mut table = ProcessTable::new();
    let (mut start, mut rel, mut file) = (false, false, false);
    let mut event = FileWriteEvent::default();
    event.header.kind = EventKind::FileWrite.as_u16();
    event.header.version = EVENT_SCHEMA_VERSION;
    event.header.size = FileWriteEvent::SIZE;
    event.header.pid = 77;
    event.fd = 5;
    event.count = 12;
    let bytes = event.to_bytes();
    assert_eq!(fd_to_resolve(&bytes), Some((77, 5)));
    let mut ctx = DispatchContext {
        table: &mut table,
        file_config: None,
        persistence_detections: &[],
        network_detections: &[],
        ci_smoke: true,
        ci_smoke_start_seen: &mut start,
        ci_smoke_rel_or_exit_seen: &mut rel,
        ci_smoke_file_open_seen: &mut file,
    };
    match dispatch_event(&bytes, &mut ctx, "/etc/shadow") {
        DispatchResult::Normalized(NormalizedEvent::FileWrite(w)) => {
            assert_eq!(w.resolved_path, "/etc/shadow");
            assert_eq!(w.fd, 5);
            assert_eq!(w.count, 12);
        }
        _ => panic!("expected a file write"),
    }
    let mut exec = ProcessExecEvent::default();
    exec.header.kind = EventKind::ProcessExec.as_u16();
    exec.header.version = EVENT_SCHEMA_VERSION;
    exec.header.size = ProcessExecEvent::SIZE;
    assert_eq!(fd_to_resolve(&exec.to_bytes()), None);
    assert!(matches!(dispatch_event(&exec.to_bytes(), &mut ctx, ""), DispatchResult::Normalized(_)));
    drop(ctx);
    assert!(start);
    assert!(!rel);
    assert!(!file);
}
