//! Normalization of process lifecycle records.
use vstd::prelude::*;
use crate::abi::{ExecSyscallEvent, ProcessExecEvent, ProcessExitEvent, ProcessForkEvent};
use crate::normalize::helpers::filename_truncated;
use crate::normalize::helpers;
use crate::normalize::types::{NormalizedEvent, ProcessExit, ProcessRelationship, ProcessStart};
use crate::process_table::{ProcessRecord, ProcessTable};
use crate::process_table;
use crate::text::fixed_string;
use crate::text;

verus! {

/// The process-start event reported for an exec that produced `record`.
pub open spec fn start_of(record: ProcessRecord, event: ProcessExecEvent) -> ProcessStart {
    ProcessStart {
        pid: record.pid,
        tid: record.tid,
        ppid: record.ppid,
        uid: record.uid,
        gid: record.gid,
        comm: record.comm,
        exe_path: record.exe_path,
        source: record.pending_source,
        timestamp_ns: event.header.timestamp_ns,
        filename_truncated: helpers::filename_cut(event.header.flags),
    }
}

/// What normalizing a process exec gives: the start event, and the table
/// after it.
pub open spec fn exec_result(event: ProcessExecEvent, before: ProcessTable, after: ProcessTable, r: NormalizedEvent) -> bool {
    r matches NormalizedEvent::ProcessStart(s) && {
        let key = process_table::table_key(event.header.pid, event.header.tid);
        let record = process_table::exec_record(
            before.records(),
            before.pending_sources(),
            event,
            s.comm,
            s.exe_path,
        );
        &&& s.comm@ == text::fixed_text(event.comm@)
        &&& s.exe_path@ == text::fixed_text(event.filename@)
        &&& s == start_of(record, event)
        &&& after.records() == before.records().insert(
            key,
            ProcessRecord { pending_source: None, ..record },
        )
        &&& after.pending_sources() == process_table::exec_pending(
            before.records(),
            before.pending_sources(),
            key,
        )
    }
}

/// Record an exec in the table and report the process start, with the
/// parent and first-seen time of an earlier fork and the pending exec source.
pub fn normalize_exec(event: &ProcessExecEvent, table: &mut ProcessTable) -> (r: NormalizedEvent)
    requires
        old(table).wf(),
    ensures
        final(table).wf(),
        exec_result(*event, *old(table), *final(table), r),
{
    let record = table.update_from_exec(event);
    let truncated = filename_truncated(event.header.flags);
    NormalizedEvent::ProcessStart(
        ProcessStart {
            pid: record.pid,
            tid: record.tid,
            ppid: record.ppid,
            uid: record.uid,
            gid: record.gid,
            comm: record.comm,
            exe_path: record.exe_path,
            source: record.pending_source,
            timestamp_ns: event.header.timestamp_ns,
            filename_truncated: truncated,
        },
    )
}

/// What normalizing a process fork gives: the relationship event, and the
/// table after it.
pub open spec fn fork_result(event: ProcessForkEvent, before: ProcessTable, after: ProcessTable, r: NormalizedEvent) -> bool {
    r matches NormalizedEvent::ProcessRelationship(rel) && {
        let key = process_table::table_key(event.child_pid, event.child_tid);
        let child = after.records()[key];
        &&& rel.parent_pid == event.parent_pid
        &&& rel.parent_comm@ == text::fixed_text(event.parent_comm@)
        &&& rel.child_pid == event.child_pid
        &&& rel.child_tid == event.child_tid
        &&& rel.child_comm@ == text::fixed_text(event.child_comm@)
        &&& rel.uid == event.header.uid
        &&& rel.gid == event.header.gid
        &&& rel.timestamp_ns == event.header.timestamp_ns
        &&& after.records().contains_key(key)
        &&& child == process_table::fork_record(event, rel.child_comm, child.exe_path)
        &&& child.exe_path@ == Seq::<char>::empty()
        &&& after.records() == before.records().insert(key, child)
        &&& after.pending_sources() == before.pending_sources()
    }
}

/// Record the child of a fork in the table and report the relationship.
pub fn normalize_fork(event: &ProcessForkEvent, table: &mut ProcessTable) -> (r: NormalizedEvent)
    requires
        old(table).wf(),
    ensures
        final(table).wf(),
        fork_result(*event, *old(table), *final(table), r),
{
    let record = table.insert_from_fork(event);
    let parent_comm = fixed_string(&event.parent_comm, 16);
    assert(event.parent_comm@.take(16) =~= event.parent_comm@);
    NormalizedEvent::ProcessRelationship(
        ProcessRelationship {
            parent_pid: event.parent_pid,
            parent_comm,
            child_pid: record.pid,
            child_tid: record.tid,
            child_comm: record.comm,
            uid: event.header.uid,
            gid: event.header.gid,
            timestamp_ns: event.header.timestamp_ns,
        },
    )
}

/// What normalizing a process exit gives: the exit event, and the table
/// after it.
pub open spec fn exit_result(event: ProcessExitEvent, before: ProcessTable, after: ProcessTable, r: NormalizedEvent) -> bool {
    r matches NormalizedEvent::ProcessExit(x) && {
        let key = process_table::table_key(event.header.pid, event.header.tid);
        &&& x.group_dead == (event.group_dead != 0)
        &&& x.timestamp_ns == event.header.timestamp_ns
        &&& if before.records().contains_key(key) {
            let rec = before.records()[key];
            &&& x.pid == rec.pid
            &&& x.tid == rec.tid
            &&& x.comm == rec.comm
            &&& x.uid == rec.uid
            &&& x.gid == rec.gid
        } else {
            &&& x.pid == event.header.pid
            &&& x.tid == event.header.tid
            &&& x.comm@ == text::fixed_text(event.comm@)
            &&& x.uid == event.header.uid
            &&& x.gid == event.header.gid
        }
        &&& after.records() == before.records().remove(key)
        &&& after.pending_sources() == before.pending_sources().remove(key)
    }
}

/// Mark the process exited in the table and report the exit; an unknown
/// process is reported with the details the probe captured.
pub fn normalize_exit(event: &ProcessExitEvent, table: &mut ProcessTable) -> (r: NormalizedEvent)
    requires
        old(table).wf(),
    ensures
        final(table).wf(),
        exit_result(*event, *old(table), *final(table), r),
{
    let comm = fixed_string(&event.comm, 16);
    assert(event.comm@.take(16) =~= event.comm@);
    let group_dead = event.group_dead != 0;
    match table.mark_exit(event) {
        Some(record) => NormalizedEvent::ProcessExit(
            ProcessExit {
                pid: record.pid,
                tid: record.tid,
                comm: record.comm,
                group_dead,
                uid: record.uid,
                gid: record.gid,
                timestamp_ns: event.header.timestamp_ns,
            },
        ),
        None => NormalizedEvent::ProcessExit(
            ProcessExit {
                pid: event.header.pid,
                tid: event.header.tid,
                comm,
                group_dead,
                uid: event.header.uid,
                gid: event.header.gid,
                timestamp_ns: event.header.timestamp_ns,
            },
        ),
    }
}

/// The table after an exec syscall source is remembered.
pub open spec fn exec_syscall_result(event: ExecSyscallEvent, before: ProcessTable, after: ProcessTable) -> bool {
    ({
        let key = process_table::table_key(event.header.pid, event.header.tid);
        let stored = if before.records().contains_key(key) {
            after.records()[key].pending_source->0
        } else {
            after.pending_sources()[key]
        };
        &&& stored@ == process_table::source_name(event.source)
        &&& after.records() == process_table::sourced_records(
            before.records(),
            key,
            stored,
        )
        &&& after.pending_sources() == process_table::sourced_pending(
            before.records(),
            before.pending_sources(),
            key,
            stored,
        )
    })
}

/// Remember the exec syscall source for the next exec of its process.
pub fn normalize_exec_syscall(event: &ExecSyscallEvent, table: &mut ProcessTable)
    requires
        old(table).wf(),
    ensures
        final(table).wf(),
        exec_syscall_result(*event, *old(table), *final(table)),
{
    table.set_pending_source(event);
}

} // verus!
