use rand_guard::abi::{
    EventKind, ExecSource, ExecSyscallEvent, ProcessExecEvent, ProcessExitEvent, ProcessForkEvent,
    EVENT_SCHEMA_VERSION,
};
use rand_guard::process_table::ProcessTable;

fn pt_exec_event(pid: u32, tid: u32, ppid: u32, filename: &str, comm: &str) -> ProcessExecEvent {
    let mut event = ProcessExecEvent::default();
    event.header.kind = EventKind::ProcessExec.as_u16();
    event.header.version = EVENT_SCHEMA_VERSION;
    event.header.size = ProcessExecEvent::SIZE;
    event.header.timestamp_ns = 1000;
    event.header.pid = pid;
    event.header.tid = tid;
    event.header.ppid = ppid;
    event.header.uid = 1000;
    event.header.gid = 1000;
    event.comm[..comm.len()].copy_from_slice(comm.as_bytes());
    event.filename[..filename.len()].copy_from_slice(filename.as_bytes());
    event.filename_len = filename.len() as u16;
    event
}

fn pt_fork_event(
    parent_pid: u32,
    child_pid: u32,
    child_tid: u32,
    parent_comm: &str,
    child_comm: &str,
) -> ProcessForkEvent {
    let mut event = ProcessForkEvent::default();
    event.header.kind = EventKind::ProcessFork.as_u16();
    event.header.version = EVENT_SCHEMA_VERSION;
    event.header.size = ProcessForkEvent::SIZE;
    event.header.timestamp_ns = 2000;
    event.header.uid = 1000;
    event.header.gid = 1000;
    event.parent_pid = parent_pid;
    event.parent_comm[..parent_comm.len()].copy_from_slice(parent_comm.as_bytes());
    event.child_pid = child_pid;
    event.child_tid = child_tid;
    event.child_comm[..child_comm.len()].copy_from_slice(child_comm.as_bytes());
    event
}

fn pt_exit_event(pid: u32, tid: u32, comm: &str) -> ProcessExitEvent {
    let mut event = ProcessExitEvent::default();
    event.header.kind = EventKind::ProcessExit.as_u16();
    event.header.version = EVENT_SCHEMA_VERSION;
    event.header.size = ProcessExitEvent::SIZE;
    event.header.timestamp_ns = 3000;
    event.header.pid = pid;
    event.header.tid = tid;
    event.header.uid = 1000;
    event.header.gid = 1000;
    event.comm[..comm.len()].copy_from_slice(comm.as_bytes());
    event
}

fn pt_exec_syscall_event(pid: u32, tid: u32, source: ExecSource) -> ExecSyscallEvent {
    let mut event = ExecSyscallEvent::default();
    event.header.kind = EventKind::ExecSyscall.as_u16();
    event.header.version = EVENT_SCHEMA_VERSION;
    event.header.size = ExecSyscallEvent::SIZE;
    event.header.timestamp_ns = 500;
    event.header.pid = pid;
    event.header.tid = tid;
    event.source = source.as_u8();
    event
}

#[test]
fn inserts_exec_record_with_zero_ppid_when_unknown() {
    let mut table = ProcessTable::new();
    let event = pt_exec_event(42, 42, 0, "/bin/sh", "sh");
    let record = table.update_from_exec(&event);
    assert_eq!(record.pid, 42);
    assert_eq!(record.ppid, 0);
    assert_eq!(record.exe_path, "/bin/sh");
    assert_eq!(record.comm, "sh");
}

#[test]
fn preserves_ppid_from_existing_fork_record_on_exec() {
    let mut table = ProcessTable::new();
    let fork = pt_fork_event(1, 42, 42, "bash", "sh");
    table.insert_from_fork(&fork);

    let exec = pt_exec_event(42, 42, 0, "/bin/sh", "sh");
    let record = table.update_from_exec(&exec);
    assert_eq!(record.ppid, 1);
    assert_eq!(record.exe_path, "/bin/sh");
}

#[test]
fn fork_creates_child_record() {
    let mut table = ProcessTable::new();
    let fork = pt_fork_event(1, 100, 100, "bash", "cat");
    let record = table.insert_from_fork(&fork);
    assert_eq!(record.pid, 100);
    assert_eq!(record.tid, 100);
    assert_eq!(record.ppid, 1);
    assert_eq!(record.comm, "cat");
    assert!(table.get(&(100, 100)).is_some());
}

#[test]
fn exit_marks_existing_record() {
    let mut table = ProcessTable::new();
    let exec = pt_exec_event(42, 42, 0, "/bin/sh", "sh");
    table.update_from_exec(&exec);

    let exit = pt_exit_event(42, 42, "sh");
    let record = table.mark_exit(&exit).expect("record should be known");
    assert!(record.exited);
    assert_eq!(record.exit_timestamp, Some(3000));
}

#[test]
fn exit_returns_none_for_unknown_process() {
    let mut table = ProcessTable::new();
    let exit = pt_exit_event(999, 999, "unknown");
    assert!(table.mark_exit(&exit).is_none());
}

#[test]
fn pending_source_correlates_to_exec() {
    let mut table = ProcessTable::new();
    let exec = pt_exec_event(42, 42, 0, "/bin/sh", "sh");
    table.update_from_exec(&exec);

    let syscall = pt_exec_syscall_event(42, 42, ExecSource::Execveat);
    table.set_pending_source(&syscall);

    let exec2 = pt_exec_event(42, 42, 0, "/bin/bash", "bash");
    let record = table.update_from_exec(&exec2);
    assert_eq!(record.pending_source, Some("execveat".to_string()));
    assert!(table.get(&(42, 42)).unwrap().pending_source.is_none());
}

#[test]
fn pending_source_correlates_when_exec_record_does_not_exist_yet() {
    let mut table = ProcessTable::new();
    let syscall = pt_exec_syscall_event(42, 42, ExecSource::Execveat);
    table.set_pending_source(&syscall);

    let exec = pt_exec_event(42, 42, 0, "/bin/bash", "bash");
    let record = table.update_from_exec(&exec);

    assert_eq!(record.pending_source, Some("execveat".to_string()));
    assert!(table.get(&(42, 42)).unwrap().pending_source.is_none());
}

#[test]
fn exec_preserves_first_seen_from_fork() {
    let mut table = ProcessTable::new();
    let fork = pt_fork_event(1, 42, 42, "bash", "sh");
    table.insert_from_fork(&fork);

    let mut exec = pt_exec_event(42, 42, 0, "/bin/sh", "sh");
    exec.header.timestamp_ns = 5000;
    let record = table.update_from_exec(&exec);
    assert_eq!(record.first_seen, 2000);
    assert_eq!(record.last_seen, 5000);
}

#[test]
fn multiple_children_from_same_parent() {
    let mut table = ProcessTable::new();
    let fork1 = pt_fork_event(1, 10, 10, "bash", "sh");
    let fork2 = pt_fork_event(1, 11, 11, "bash", "cat");
    table.insert_from_fork(&fork1);
    table.insert_from_fork(&fork2);

    assert_eq!(table.get(&(10, 10)).unwrap().comm, "sh");
    assert_eq!(table.get(&(11, 11)).unwrap().comm, "cat");
}

#[test]
fn full_lifecycle_fork_exec_exit() {
    let mut table = ProcessTable::new();
    let fork = pt_fork_event(1, 42, 42, "bash", "sh");
    table.insert_from_fork(&fork);

    let exec = pt_exec_event(42, 42, 0, "/bin/sh", "sh");
    table.update_from_exec(&exec);

    let exit = pt_exit_event(42, 42, "sh");
    let record = table.mark_exit(&exit).expect("record should exist");
    assert!(record.exited);
    assert_eq!(record.exe_path, "/bin/sh");
    assert_eq!(record.ppid, 1);
}

#[test]
fn exit_forgets_record_and_waiting_source() {
    let mut table = ProcessTable::new();
    table.set_pending_source(&pt_exec_syscall_event(7, 8, ExecSource::Execve));
    table.insert_from_fork(&pt_fork_event(1, 7, 8, "bash", "sh"));
    assert_eq!(table.record_count(), 1);
    assert_eq!(table.pending_exec_source_count(), 1);
    let record = table.mark_exit(&pt_exit_event(7, 8, "sh")).expect("known");
    assert_eq!(record.last_seen, 3000);
    assert!(table.get(&(7, 8)).is_none());
    assert_eq!(table.record_count(), 0);
    assert_eq!(table.pending_exec_source_count(), 0);
    assert!(table.mark_exit(&pt_exit_event(7, 8, "sh")).is_none());
}

#[test]
fn unknown_source_code_is_named_unknown() {
    let mut table = ProcessTable::new();
    let mut syscall = pt_exec_syscall_event(5, 5, ExecSource::Execve);
    syscall.source = 9;
    table.set_pending_source(&syscall);
    let record = table.update_from_exec(&pt_exec_event(5, 5, 0, "/bin/x", "x"));
    assert_eq!(record.pending_source, Some("unknown".to_string()));
    assert_eq!(table.pending_exec_source_count(), 0);
}

#[test]
fn pids_and_tids_do_not_collide() {
    let mut table = ProcessTable::new();
    table.insert_from_fork(&pt_fork_event(1, 1, 2, "a", "first"));
    table.insert_from_fork(&pt_fork_event(1, 2, 1, "a", "second"));
    assert_eq!(table.get(&(1, 2)).unwrap().comm, "first");
    assert_eq!(table.get(&(2, 1)).unwrap().comm, "second");
    assert_eq!(table.record_count(), 2);
}
