//! Dispatch of raw ring-buffer records: header and schema checks, decoding
//! by kind, and normalization.
use vstd::prelude::*;
use crate::abi::codec;
use crate::abi::header::{decode_header, HEADER_SIZE};
use crate::abi::{file, network, process};
use crate::abi::file::{
    decode_file_open_event, decode_file_open_at2_event, decode_file_write_event, decode_file_write_v_event, decode_file_pwrite64_event, decode_file_rename_event, decode_file_rename_at_event, decode_file_rename_at2_event, decode_file_unlink_event, decode_file_unlink_at_event,
};
use crate::abi::network::{decode_network_connect_event, decode_network_bind_event, decode_network_listen_event};
use crate::abi::process::{decode_process_exec_event, decode_process_fork_event, decode_process_exit_event, decode_exec_syscall_event};
use crate::abi::{ExecSyscallEvent, FileOpenAt2Event, FileOpenEvent, FilePWrite64Event, FileRenameAt2Event, FileRenameAtEvent, FileRenameEvent, FileUnlinkAtEvent, FileUnlinkEvent, FileWriteEvent, FileWriteVEvent, NetworkBindEvent, NetworkConnectEvent, NetworkListenEvent, ProcessExecEvent, ProcessExitEvent, ProcessForkEvent};
use crate::config::{FileConfig, NetworkDetectionRule, PersistenceRule};
use crate::normalize::{
    normalize_exec, normalize_exec_syscall, normalize_exit, normalize_file_open, normalize_file_openat2, normalize_file_pwrite64, normalize_file_rename, normalize_file_renameat, normalize_file_renameat2, normalize_file_unlink, normalize_file_unlinkat, normalize_file_write, normalize_file_writev, normalize_fork, normalize_network_bind, normalize_network_connect, normalize_network_listen,
};
use crate::normalize::types::NormalizedEvent;
use crate::normalize::{file as nfile, network as nnet, process as nproc};
use crate::process_table::ProcessTable;

verus! {

/// What became of one raw record.
pub enum DispatchResult {
    /// Decoded and normalized.
    Normalized(NormalizedEvent),
    /// Decoded, and dropped by the userspace file filter.
    Filtered,
    /// Too short, of another schema version, or of the wrong size for its kind.
    InvalidSchema,
    /// Of a kind that userspace does not handle.
    Unsupported,
    /// Consumed by the process table without an event of its own.
    Internal,
}

/// What a record's normalization needs, and the flags the CI smoke run
/// raises when it sees the event kinds it waits for.
pub struct DispatchContext<'a> {
    pub table: &'a mut ProcessTable,
    pub file_config: Option<&'a FileConfig>,
    pub persistence_detections: &'a [PersistenceRule],
    pub network_detections: &'a [NetworkDetectionRule],
    pub ci_smoke: bool,
    pub ci_smoke_start_seen: &'a mut bool,
    pub ci_smoke_rel_or_exit_seen: &'a mut bool,
    pub ci_smoke_file_open_seen: &'a mut bool,
}

/// The kind tag of a raw record.
pub open spec fn raw_kind(b: Seq<u8>) -> u16 {
    codec::u16_at(b, 0)
}

/// The schema version of a raw record.
pub open spec fn raw_version(b: Seq<u8>) -> u16 {
    codec::u16_at(b, 2)
}

/// The size a raw record declares.
pub open spec fn raw_size(b: Seq<u8>) -> u16 {
    codec::u16_at(b, 4)
}

/// The encoded size of each kind that userspace handles; 0 for the others.
pub open spec fn kind_record_size(kind: u16) -> int {
    if kind == 1 {
        320
    } else if kind == 3 {
        104
    } else if kind == 4 {
        88
    } else if kind == 5 {
        64
    } else if kind == 6 {
        304
    } else if kind == 7 {
        312
    } else if kind == 8 {
        320
    } else if kind == 9 {
        56
    } else if kind == 10 {
        56
    } else if kind == 11 {
        64
    } else if kind == 12 {
        560
    } else if kind == 13 {
        560
    } else if kind == 14 {
        568
    } else if kind == 15 {
        304
    } else if kind == 16 {
        312
    } else if kind == 17 {
        104
    } else if kind == 18 {
        104
    } else {
        0
    }
}

/// The header is readable and of the current schema version.
pub open spec fn schema_ok(b: Seq<u8>) -> bool {
    b.len() >= HEADER_SIZE && raw_version(b) == crate::abi::EVENT_SCHEMA_VERSION
}

/// The record holds all the bytes of its kind, and declares that size.
pub open spec fn size_ok(b: Seq<u8>) -> bool {
    b.len() >= kind_record_size(raw_kind(b)) && raw_size(b) == kind_record_size(raw_kind(b))
}

/// The normalizer's answer as a dispatch result.
pub open spec fn as_option(r: DispatchResult) -> Option<NormalizedEvent> {
    match r {
        DispatchResult::Normalized(e) => Some(e),
        _ => None,
    }
}

/// What a well-formed record of a handled kind gives.
pub open spec fn decoded_outcome(
    b: Seq<u8>,
    file_config: Option<&FileConfig>,
    persistence: Seq<PersistenceRule>,
    network: Seq<NetworkDetectionRule>,
    resolved_path: Seq<char>,
    before: ProcessTable,
    after: ProcessTable,
    r: DispatchResult,
) -> bool {
    let kind = raw_kind(b);
    if kind == 1 {
        r matches DispatchResult::Normalized(n) && nproc::exec_result(choose|e: ProcessExecEvent| process::process_exec_event_layout(b, e), before, after, n)
    } else if kind == 3 {
        after == before && nnet::network_connect_result(choose|e: NetworkConnectEvent| network::network_connect_event_layout(b, e), before.records(), network, as_option(r))
            && (r is Normalized || r is Filtered)
    } else if kind == 4 {
        r matches DispatchResult::Normalized(n) && nproc::fork_result(choose|e: ProcessForkEvent| process::process_fork_event_layout(b, e), before, after, n)
    } else if kind == 5 {
        r matches DispatchResult::Normalized(n) && nproc::exit_result(choose|e: ProcessExitEvent| process::process_exit_event_layout(b, e), before, after, n)
    } else if kind == 6 {
        r is Internal && nproc::exec_syscall_result(choose|e: ExecSyscallEvent| process::exec_syscall_event_layout(b, e), before, after)
    } else if kind == 7 {
        after == before && nfile::file_open_result(choose|e: FileOpenEvent| file::file_open_event_layout(b, e), file_config, before.records(), persistence, as_option(r))
            && (r is Normalized || r is Filtered)
    } else if kind == 8 {
        after == before && nfile::file_open_at2_result(choose|e: FileOpenAt2Event| file::file_open_at2_event_layout(b, e), file_config, before.records(), persistence, as_option(r))
            && (r is Normalized || r is Filtered)
    } else if kind == 9 {
        after == before && nfile::file_write_result(choose|e: FileWriteEvent| file::file_write_event_layout(b, e), resolved_path, file_config, before.records(), persistence, as_option(r))
            && (r is Normalized || r is Filtered)
    } else if kind == 10 {
        after == before && nfile::file_write_v_result(choose|e: FileWriteVEvent| file::file_write_v_event_layout(b, e), resolved_path, file_config, before.records(), persistence, as_option(r))
            && (r is Normalized || r is Filtered)
    } else if kind == 11 {
        after == before && nfile::file_pwrite64_result(choose|e: FilePWrite64Event| file::file_pwrite64_event_layout(b, e), resolved_path, file_config, before.records(), persistence, as_option(r))
            && (r is Normalized || r is Filtered)
    } else if kind == 12 {
        after == before && nfile::file_rename_result(choose|e: FileRenameEvent| file::file_rename_event_layout(b, e), file_config, before.records(), persistence, as_option(r))
            && (r is Normalized || r is Filtered)
    } else if kind == 13 {
        after == before && nfile::file_rename_at_result(choose|e: FileRenameAtEvent| file::file_rename_at_event_layout(b, e), file_config, before.records(), persistence, as_option(r))
            && (r is Normalized || r is Filtered)
    } else if kind == 14 {
        after == before && nfile::file_rename_at2_result(choose|e: FileRenameAt2Event| file::file_rename_at2_event_layout(b, e), file_config, before.records(), persistence, as_option(r))
            && (r is Normalized || r is Filtered)
    } else if kind == 15 {
        after == before && nfile::file_unlink_result(choose|e: FileUnlinkEvent| file::file_unlink_event_layout(b, e), file_config, before.records(), persistence, as_option(r))
            && (r is Normalized || r is Filtered)
    } else if kind == 16 {
        after == before && nfile::file_unlink_at_result(choose|e: FileUnlinkAtEvent| file::file_unlink_at_event_layout(b, e), file_config, before.records(), persistence, as_option(r))
            && (r is Normalized || r is Filtered)
    } else if kind == 17 {
        after == before && nnet::network_bind_result(choose|e: NetworkBindEvent| network::network_bind_event_layout(b, e), before.records(), network, as_option(r))
            && (r is Normalized || r is Filtered)
    } else if kind == 18 {
        after == before && nnet::network_listen_result(choose|e: NetworkListenEvent| network::network_listen_event_layout(b, e), before.records(), network, as_option(r))
            && (r is Normalized || r is Filtered)
    } else {
        false
    }
}

/// What dispatching a raw record gives, and the table after it.
pub open spec fn dispatch_outcome(
    b: Seq<u8>,
    file_config: Option<&FileConfig>,
    persistence: Seq<PersistenceRule>,
    network: Seq<NetworkDetectionRule>,
    resolved_path: Seq<char>,
    before: ProcessTable,
    after: ProcessTable,
    r: DispatchResult,
) -> bool {
    if !schema_ok(b) {
        r is InvalidSchema && after == before
    } else if kind_record_size(raw_kind(b)) == 0 {
        r is Unsupported && after == before
    } else if !size_ok(b) {
        (if raw_kind(b) == 6 { r is Internal } else { r is InvalidSchema }) && after == before
    } else {
        decoded_outcome(b, file_config, persistence, network, resolved_path, before, after, r)
    }
}

/// The records whose normalization needs the path behind a descriptor: a
/// well-formed write record.
pub open spec fn needs_fd_path(b: Seq<u8>) -> bool {
    &&& schema_ok(b)
    &&& 9 <= raw_kind(b) <= 11
    &&& size_ok(b)
}

/// The process and descriptor of a write record, whose path the caller
/// resolves and passes to `dispatch_event`; `None` for any other record.
pub fn fd_to_resolve(bytes: &[u8]) -> (r: Option<(u32, u64)>)
    ensures
        r is Some <==> needs_fd_path(bytes@),
        r matches Some(p) ==> p.0 == codec::u32_at(bytes@, 16) && p.1 == codec::u64_at(bytes@, 40),
{
    let header = match decode_header(bytes) {
        Some(h) => h,
        None => return None,
    };
    if header.version != crate::abi::EVENT_SCHEMA_VERSION {
        return None;
    }
    if header.kind == 9 {
        if header.size == FileWriteEvent::SIZE {
            if let Some(e) = decode_file_write_event(bytes) {
                return Some((e.header.pid, e.fd));
            }
        }
    } else if header.kind == 10 {
        if header.size == FileWriteVEvent::SIZE {
            if let Some(e) = decode_file_write_v_event(bytes) {
                return Some((e.header.pid, e.fd));
            }
        }
    } else if header.kind == 11 {
        if header.size == FilePWrite64Event::SIZE {
            if let Some(e) = decode_file_pwrite64_event(bytes) {
                return Some((e.header.pid, e.fd));
            }
        }
    }
    None
}

/// Whether the smoke run's flag for `kind` of event is raised.
pub open spec fn smoke_flag_after(before: bool, ci_smoke: bool, r: DispatchResult, start: bool, rel_or_exit: bool, file_open: bool) -> bool {
    before || (ci_smoke && match r {
        DispatchResult::Normalized(NormalizedEvent::ProcessStart(_)) => start,
        DispatchResult::Normalized(NormalizedEvent::ProcessRelationship(_)) => rel_or_exit,
        DispatchResult::Normalized(NormalizedEvent::ProcessExit(_)) => rel_or_exit,
        DispatchResult::Normalized(NormalizedEvent::FileOpen(_)) => file_open,
        _ => false,
    })
}

fn note_smoke(ctx: &mut DispatchContext<'_>, event: &NormalizedEvent)
    ensures
        final(ctx).table == old(ctx).table,
        final(ctx).file_config == old(ctx).file_config,
        final(ctx).persistence_detections == old(ctx).persistence_detections,
        final(ctx).network_detections == old(ctx).network_detections,
        final(ctx).ci_smoke == old(ctx).ci_smoke,
        *final(ctx).ci_smoke_start_seen == smoke_flag_after(*old(ctx).ci_smoke_start_seen, old(ctx).ci_smoke, DispatchResult::Normalized(*event), true, false, false),
        *final(ctx).ci_smoke_rel_or_exit_seen == smoke_flag_after(*old(ctx).ci_smoke_rel_or_exit_seen, old(ctx).ci_smoke, DispatchResult::Normalized(*event), false, true, false),
        *final(ctx).ci_smoke_file_open_seen == smoke_flag_after(*old(ctx).ci_smoke_file_open_seen, old(ctx).ci_smoke, DispatchResult::Normalized(*event), false, false, true),
{
    if ctx.ci_smoke {
        match event {
            NormalizedEvent::ProcessStart(_) => *ctx.ci_smoke_start_seen = true,
            NormalizedEvent::ProcessRelationship(_) | NormalizedEvent::ProcessExit(_) => {
                *ctx.ci_smoke_rel_or_exit_seen = true
            },
            NormalizedEvent::FileOpen(_) => *ctx.ci_smoke_file_open_seen = true,
            _ => {},
        }
    }
}

/// Decode, check and normalize one raw record.  `resolved_path` is the
/// path behind the descriptor of a write record (see `fd_to_resolve`;
/// empty when it could not be resolved) and is not used for other records.
pub fn dispatch_event(bytes: &[u8], ctx: &mut DispatchContext<'_>, resolved_path: &str) -> (r: DispatchResult)
    requires
        old(ctx).table.wf(),
    ensures
        final(ctx).table.wf(),
        dispatch_outcome(
            bytes@,
            old(ctx).file_config,
            old(ctx).persistence_detections@,
            old(ctx).network_detections@,
            resolved_path@,
            *old(ctx).table,
            *final(ctx).table,
            r,
        ),
        final(ctx).file_config == old(ctx).file_config,
        final(ctx).persistence_detections == old(ctx).persistence_detections,
        final(ctx).network_detections == old(ctx).network_detections,
        final(ctx).ci_smoke == old(ctx).ci_smoke,
        *final(ctx).ci_smoke_start_seen == smoke_flag_after(*old(ctx).ci_smoke_start_seen, old(ctx).ci_smoke, r, true, false, false),
        *final(ctx).ci_smoke_rel_or_exit_seen == smoke_flag_after(*old(ctx).ci_smoke_rel_or_exit_seen, old(ctx).ci_smoke, r, false, true, false),
        *final(ctx).ci_smoke_file_open_seen == smoke_flag_after(*old(ctx).ci_smoke_file_open_seen, old(ctx).ci_smoke, r, false, false, true),
{
    let header = match decode_header(bytes) {
        Some(h) => h,
        None => return DispatchResult::InvalidSchema,
    };
    if header.version != crate::abi::EVENT_SCHEMA_VERSION {
        return DispatchResult::InvalidSchema;
    }
    let ghost b = bytes@;
    let normalized: Option<NormalizedEvent> = if header.kind == 1 {
        if header.size != ProcessExecEvent::SIZE {
            return DispatchResult::InvalidSchema;
        }
        match decode_process_exec_event(bytes) {
            Some(e) => {
                proof {
                    process::lemma_process_exec_event_layout_unique(b, e, choose|e2: ProcessExecEvent| process::process_exec_event_layout(b, e2));
                }
                Some(normalize_exec(&e, ctx.table))
            },
            None => return DispatchResult::InvalidSchema,
        }
    } else if header.kind == 3 {
        if header.size != NetworkConnectEvent::SIZE {
            return DispatchResult::InvalidSchema;
        }
        match decode_network_connect_event(bytes) {
            Some(e) => {
                proof {
                    network::lemma_network_connect_event_layout_unique(b, e, choose|e2: NetworkConnectEvent| network::network_connect_event_layout(b, e2));
                }
                normalize_network_connect(&e, ctx.table, ctx.network_detections)
            },
            None => return DispatchResult::InvalidSchema,
        }
    } else if header.kind == 4 {
        if header.size != ProcessForkEvent::SIZE {
            return DispatchResult::InvalidSchema;
        }
        match decode_process_fork_event(bytes) {
            Some(e) => {
                proof {
                    process::lemma_process_fork_event_layout_unique(b, e, choose|e2: ProcessForkEvent| process::process_fork_event_layout(b, e2));
                }
                Some(normalize_fork(&e, ctx.table))
            },
            None => return DispatchResult::InvalidSchema,
        }
    } else if header.kind == 5 {
        if header.size != ProcessExitEvent::SIZE {
            return DispatchResult::InvalidSchema;
        }
        match decode_process_exit_event(bytes) {
            Some(e) => {
                proof {
                    process::lemma_process_exit_event_layout_unique(b, e, choose|e2: ProcessExitEvent| process::process_exit_event_layout(b, e2));
                }
                Some(normalize_exit(&e, ctx.table))
            },
            None => return DispatchResult::InvalidSchema,
        }
    } else if header.kind == 6 {
        if header.size == ExecSyscallEvent::SIZE {
            if let Some(e) = decode_exec_syscall_event(bytes) {
                proof {
                    process::lemma_exec_syscall_event_layout_unique(b, e, choose|e2: ExecSyscallEvent| process::exec_syscall_event_layout(b, e2));
                }
                normalize_exec_syscall(&e, ctx.table);
            }
        }
        return DispatchResult::Internal;
    } else if header.kind == 7 {
        if header.size != FileOpenEvent::SIZE {
            return DispatchResult::InvalidSchema;
        }
        match decode_file_open_event(bytes) {
            Some(e) => {
                proof {
                    file::lemma_file_open_event_layout_unique(b, e, choose|e2: FileOpenEvent| file::file_open_event_layout(b, e2));
                }
                normalize_file_open(&e, ctx.table, ctx.file_config, ctx.persistence_detections)
            },
            None => return DispatchResult::InvalidSchema,
        }
    } else if header.kind == 8 {
        if header.size != FileOpenAt2Event::SIZE {
            return DispatchResult::InvalidSchema;
        }
        match decode_file_open_at2_event(bytes) {
            Some(e) => {
                proof {
                    file::lemma_file_open_at2_event_layout_unique(b, e, choose|e2: FileOpenAt2Event| file::file_open_at2_event_layout(b, e2));
                }
                normalize_file_openat2(&e, ctx.table, ctx.file_config, ctx.persistence_detections)
            },
            None => return DispatchResult::InvalidSchema,
        }
    } else if header.kind == 9 {
        if header.size != FileWriteEvent::SIZE {
            return DispatchResult::InvalidSchema;
        }
        match decode_file_write_event(bytes) {
            Some(e) => {
                proof {
                    file::lemma_file_write_event_layout_unique(b, e, choose|e2: FileWriteEvent| file::file_write_event_layout(b, e2));
                }
                normalize_file_write(&e, ctx.table, ctx.file_config, ctx.persistence_detections, resolved_path)
            },
            None => return DispatchResult::InvalidSchema,
        }
    } else if header.kind == 10 {
        if header.size != FileWriteVEvent::SIZE {
            return DispatchResult::InvalidSchema;
        }
        match decode_file_write_v_event(bytes) {
            Some(e) => {
                proof {
                    file::lemma_file_write_v_event_layout_unique(b, e, choose|e2: FileWriteVEvent| file::file_write_v_event_layout(b, e2));
                }
                normalize_file_writev(&e, ctx.table, ctx.file_config, ctx.persistence_detections, resolved_path)
            },
            None => return DispatchResult::InvalidSchema,
        }
    } else if header.kind == 11 {
        if header.size != FilePWrite64Event::SIZE {
            return DispatchResult::InvalidSchema;
        }
        match decode_file_pwrite64_event(bytes) {
            Some(e) => {
                proof {
                    file::lemma_file_pwrite64_event_layout_unique(b, e, choose|e2: FilePWrite64Event| file::file_pwrite64_event_layout(b, e2));
                }
                normalize_file_pwrite64(&e, ctx.table, ctx.file_config, ctx.persistence_detections, resolved_path)
            },
            None => return DispatchResult::InvalidSchema,
        }
    } else if header.kind == 12 {
        if header.size != FileRenameEvent::SIZE {
            return DispatchResult::InvalidSchema;
        }
        match decode_file_rename_event(bytes) {
            Some(e) => {
                proof {
                    file::lemma_file_rename_event_layout_unique(b, e, choose|e2: FileRenameEvent| file::file_rename_event_layout(b, e2));
                }
                normalize_file_rename(&e, ctx.table, ctx.file_config, ctx.persistence_detections)
            },
            None => return DispatchResult::InvalidSchema,
        }
    } else if header.kind == 13 {
        if header.size != FileRenameAtEvent::SIZE {
            return DispatchResult::InvalidSchema;
        }
        match decode_file_rename_at_event(bytes) {
            Some(e) => {
                proof {
                    file::lemma_file_rename_at_event_layout_unique(b, e, choose|e2: FileRenameAtEvent| file::file_rename_at_event_layout(b, e2));
                }
                normalize_file_renameat(&e, ctx.table, ctx.file_config, ctx.persistence_detections)
            },
            None => return DispatchResult::InvalidSchema,
        }
    } else if header.kind == 14 {
        if header.size != FileRenameAt2Event::SIZE {
            return DispatchResult::InvalidSchema;
        }
        match decode_file_rename_at2_event(bytes) {
            Some(e) => {
                proof {
                    file::lemma_file_rename_at2_event_layout_unique(b, e, choose|e2: FileRenameAt2Event| file::file_rename_at2_event_layout(b, e2));
                }
                normalize_file_renameat2(&e, ctx.table, ctx.file_config, ctx.persistence_detections)
            },
            None => return DispatchResult::InvalidSchema,
        }
    } else if header.kind == 15 {
        if header.size != FileUnlinkEvent::SIZE {
            return DispatchResult::InvalidSchema;
        }
        match decode_file_unlink_event(bytes) {
            Some(e) => {
                proof {
                    file::lemma_file_unlink_event_layout_unique(b, e, choose|e2: FileUnlinkEvent| file::file_unlink_event_layout(b, e2));
                }
                normalize_file_unlink(&e, ctx.table, ctx.file_config, ctx.persistence_detections)
            },
            None => return DispatchResult::InvalidSchema,
        }
    } else if header.kind == 16 {
        if header.size != FileUnlinkAtEvent::SIZE {
            return DispatchResult::InvalidSchema;
        }
        match decode_file_unlink_at_event(bytes) {
            Some(e) => {
                proof {
                    file::lemma_file_unlink_at_event_layout_unique(b, e, choose|e2: FileUnlinkAtEvent| file::file_unlink_at_event_layout(b, e2));
                }
                normalize_file_unlinkat(&e, ctx.table, ctx.file_config, ctx.persistence_detections)
            },
            None => return DispatchResult::InvalidSchema,
        }
    } else if header.kind == 17 {
        if header.size != NetworkBindEvent::SIZE {
            return DispatchResult::InvalidSchema;
        }
        match decode_network_bind_event(bytes) {
            Some(e) => {
                proof {
                    network::lemma_network_bind_event_layout_unique(b, e, choose|e2: NetworkBindEvent| network::network_bind_event_layout(b, e2));
                }
                normalize_network_bind(&e, ctx.table, ctx.network_detections)
            },
            None => return DispatchResult::InvalidSchema,
        }
    } else if header.kind == 18 {
        if header.size != NetworkListenEvent::SIZE {
            return DispatchResult::InvalidSchema;
        }
        match decode_network_listen_event(bytes) {
            Some(e) => {
                proof {
                    network::lemma_network_listen_event_layout_unique(b, e, choose|e2: NetworkListenEvent| network::network_listen_event_layout(b, e2));
                }
                normalize_network_listen(&e, ctx.table, ctx.network_detections)
            },
            None => return DispatchResult::InvalidSchema,
        }
    } else {
        return DispatchResult::Unsupported;
    };
    match normalized {
        Some(event) => {
            note_smoke(ctx, &event);
            DispatchResult::Normalized(event)
        },
        None => DispatchResult::Filtered,
    }
}


/// What a probe writes for a `ProcessExecEvent` (its own kind, the current schema
/// version, its size) is dispatched as that very record.
#[verifier::rlimit(50)]
pub proof fn law_process_exec_event_dispatched_as_written(
    e: ProcessExecEvent,
    file_config: Option<&FileConfig>,
    persistence: Seq<PersistenceRule>,
    network: Seq<NetworkDetectionRule>,
    resolved_path: Seq<char>,
    before: ProcessTable,
    after: ProcessTable,
    r: DispatchResult,
)
    requires
        e.header.kind == 1,
        e.header.version == 1,
        e.header.size == 320,
    ensures
        dispatch_outcome(
            process::process_exec_event_bytes(e),
            file_config,
            persistence,
            network,
            resolved_path,
            before,
            after,
            r,
        ) <==> (r matches DispatchResult::Normalized(n) && nproc::exec_result(e, before, after, n)),
{
    let b = process::process_exec_event_bytes(e);
    process::lemma_process_exec_event_bytes(e);
    let d = choose|d: ProcessExecEvent| process::process_exec_event_layout(b, d);
    process::lemma_process_exec_event_layout_unique(b, e, d);
    assert(raw_kind(b) == 1 && raw_version(b) == 1 && raw_size(b) == 320);
    assert(schema_ok(b) && size_ok(b));
    assert(d == e);
}

/// What a probe writes for a `NetworkConnectEvent` (its own kind, the current schema
/// version, its size) is dispatched as that very record.
#[verifier::rlimit(50)]
pub proof fn law_network_connect_event_dispatched_as_written(
    e: NetworkConnectEvent,
    file_config: Option<&FileConfig>,
    persistence: Seq<PersistenceRule>,
    network: Seq<NetworkDetectionRule>,
    resolved_path: Seq<char>,
    before: ProcessTable,
    after: ProcessTable,
    r: DispatchResult,
)
    requires
        e.header.kind == 3,
        e.header.version == 1,
        e.header.size == 104,
    ensures
        dispatch_outcome(
            network::network_connect_event_bytes(e),
            file_config,
            persistence,
            network,
            resolved_path,
            before,
            after,
            r,
        ) <==> (after == before && nnet::network_connect_result(e, before.records(), network, as_option(r))
                && (r is Normalized || r is Filtered)),
{
    let b = network::network_connect_event_bytes(e);
    network::lemma_network_connect_event_bytes(e);
    let d = choose|d: NetworkConnectEvent| network::network_connect_event_layout(b, d);
    network::lemma_network_connect_event_layout_unique(b, e, d);
    assert(raw_kind(b) == 3 && raw_version(b) == 1 && raw_size(b) == 104);
    assert(schema_ok(b) && size_ok(b));
    assert(d == e);
}

/// What a probe writes for a `ProcessForkEvent` (its own kind, the current schema
/// version, its size) is dispatched as that very record.
#[verifier::rlimit(50)]
pub proof fn law_process_fork_event_dispatched_as_written(
    e: ProcessForkEvent,
    file_config: Option<&FileConfig>,
    persistence: Seq<PersistenceRule>,
    network: Seq<NetworkDetectionRule>,
    resolved_path: Seq<char>,
    before: ProcessTable,
    after: ProcessTable,
    r: DispatchResult,
)
    requires
        e.header.kind == 4,
        e.header.version == 1,
        e.header.size == 88,
    ensures
        dispatch_outcome(
            process::process_fork_event_bytes(e),
            file_config,
            persistence,
            network,
            resolved_path,
            before,
            after,
            r,
        ) <==> (r matches DispatchResult::Normalized(n) && nproc::fork_result(e, before, after, n)),
{
    let b = process::process_fork_event_bytes(e);
    process::lemma_process_fork_event_bytes(e);
    let d = choose|d: ProcessForkEvent| process::process_fork_event_layout(b, d);
    process::lemma_process_fork_event_layout_unique(b, e, d);
    assert(raw_kind(b) == 4 && raw_version(b) == 1 && raw_size(b) == 88);
    assert(schema_ok(b) && size_ok(b));
    assert(d == e);
}

/// What a probe writes for a `ProcessExitEvent` (its own kind, the current schema
/// version, its size) is dispatched as that very record.
#[verifier::rlimit(50)]
pub proof fn law_process_exit_event_dispatched_as_written(
    e: ProcessExitEvent,
    file_config: Option<&FileConfig>,
    persistence: Seq<PersistenceRule>,
    network: Seq<NetworkDetectionRule>,
    resolved_path: Seq<char>,
    before: ProcessTable,
    after: ProcessTable,
    r: DispatchResult,
)
    requires
        e.header.kind == 5,
        e.header.version == 1,
        e.header.size == 64,
    ensures
        dispatch_outcome(
            process::process_exit_event_bytes(e),
            file_config,
            persistence,
            network,
            resolved_path,
            before,
            after,
            r,
        ) <==> (r matches DispatchResult::Normalized(n) && nproc::exit_result(e, before, after, n)),
{
    let b = process::process_exit_event_bytes(e);
    process::lemma_process_exit_event_bytes(e);
    let d = choose|d: ProcessExitEvent| process::process_exit_event_layout(b, d);
    process::lemma_process_exit_event_layout_unique(b, e, d);
    assert(raw_kind(b) == 5 && raw_version(b) == 1 && raw_size(b) == 64);
    assert(schema_ok(b) && size_ok(b));
    assert(d == e);
}

/// What a probe writes for a `ExecSyscallEvent` (its own kind, the current schema
/// version, its size) is dispatched as that very record.
#[verifier::rlimit(50)]
pub proof fn law_exec_syscall_event_dispatched_as_written(
    e: ExecSyscallEvent,
    file_config: Option<&FileConfig>,
    persistence: Seq<PersistenceRule>,
    network: Seq<NetworkDetectionRule>,
    resolved_path: Seq<char>,
    before: ProcessTable,
    after: ProcessTable,
    r: DispatchResult,
)
    requires
        e.header.kind == 6,
        e.header.version == 1,
        e.header.size == 304,
    ensures
        dispatch_outcome(
            process::exec_syscall_event_bytes(e),
            file_config,
            persistence,
            network,
            resolved_path,
            before,
            after,
            r,
        ) <==> (r is Internal && nproc::exec_syscall_result(e, before, after)),
{
    let b = process::exec_syscall_event_bytes(e);
    process::lemma_exec_syscall_event_bytes(e);
    let d = choose|d: ExecSyscallEvent| process::exec_syscall_event_layout(b, d);
    process::lemma_exec_syscall_event_layout_unique(b, e, d);
    assert(raw_kind(b) == 6 && raw_version(b) == 1 && raw_size(b) == 304);
    assert(schema_ok(b) && size_ok(b));
    assert(d == e);
}

/// What a probe writes for a `FileOpenEvent` (its own kind, the current schema
/// version, its size) is dispatched as that very record.
#[verifier::rlimit(50)]
pub proof fn law_file_open_event_dispatched_as_written(
    e: FileOpenEvent,
    file_config: Option<&FileConfig>,
    persistence: Seq<PersistenceRule>,
    network: Seq<NetworkDetectionRule>,
    resolved_path: Seq<char>,
    before: ProcessTable,
    after: ProcessTable,
    r: DispatchResult,
)
    requires
        e.header.kind == 7,
        e.header.version == 1,
        e.header.size == 312,
    ensures
        dispatch_outcome(
            file::file_open_event_bytes(e),
            file_config,
            persistence,
            network,
            resolved_path,
            before,
            after,
            r,
        ) <==> (after == before && nfile::file_open_result(e, file_config, before.records(), persistence, as_option(r))
                && (r is Normalized || r is Filtered)),
{
    let b = file::file_open_event_bytes(e);
    file::lemma_file_open_event_bytes(e);
    let d = choose|d: FileOpenEvent| file::file_open_event_layout(b, d);
    file::lemma_file_open_event_layout_unique(b, e, d);
    assert(raw_kind(b) == 7 && raw_version(b) == 1 && raw_size(b) == 312);
    assert(schema_ok(b) && size_ok(b));
    assert(d == e);
}

/// What a probe writes for a `FileOpenAt2Event` (its own kind, the current schema
/// version, its size) is dispatched as that very record.
#[verifier::rlimit(50)]
pub proof fn law_file_open_at2_event_dispatched_as_written(
    e: FileOpenAt2Event,
    file_config: Option<&FileConfig>,
    persistence: Seq<PersistenceRule>,
    network: Seq<NetworkDetectionRule>,
    resolved_path: Seq<char>,
    before: ProcessTable,
    after: ProcessTable,
    r: DispatchResult,
)
    requires
        e.header.kind == 8,
        e.header.version == 1,
        e.header.size == 320,
    ensures
        dispatch_outcome(
            file::file_open_at2_event_bytes(e),
            file_config,
            persistence,
            network,
            resolved_path,
            before,
            after,
            r,
        ) <==> (after == before && nfile::file_open_at2_result(e, file_config, before.records(), persistence, as_option(r))
                && (r is Normalized || r is Filtered)),
{
    let b = file::file_open_at2_event_bytes(e);
    file::lemma_file_open_at2_event_bytes(e);
    let d = choose|d: FileOpenAt2Event| file::file_open_at2_event_layout(b, d);
    file::lemma_file_open_at2_event_layout_unique(b, e, d);
    assert(raw_kind(b) == 8 && raw_version(b) == 1 && raw_size(b) == 320);
    assert(schema_ok(b) && size_ok(b));
    assert(d == e);
}

/// What a probe writes for a `FileWriteEvent` (its own kind, the current schema
/// version, its size) is dispatched as that very record.
#[verifier::rlimit(50)]
pub proof fn law_file_write_event_dispatched_as_written(
    e: FileWriteEvent,
    file_config: Option<&FileConfig>,
    persistence: Seq<PersistenceRule>,
    network: Seq<NetworkDetectionRule>,
    resolved_path: Seq<char>,
    before: ProcessTable,
    after: ProcessTable,
    r: DispatchResult,
)
    requires
        e.header.kind == 9,
        e.header.version == 1,
        e.header.size == 56,
    ensures
        dispatch_outcome(
            file::file_write_event_bytes(e),
            file_config,
            persistence,
            network,
            resolved_path,
            before,
            after,
            r,
        ) <==> (after == before && nfile::file_write_result(e, resolved_path, file_config, before.records(), persistence, as_option(r))
                && (r is Normalized || r is Filtered)),
{
    let b = file::file_write_event_bytes(e);
    file::lemma_file_write_event_bytes(e);
    let d = choose|d: FileWriteEvent| file::file_write_event_layout(b, d);
    file::lemma_file_write_event_layout_unique(b, e, d);
    assert(raw_kind(b) == 9 && raw_version(b) == 1 && raw_size(b) == 56);
    assert(schema_ok(b) && size_ok(b));
    assert(d == e);
}

/// What a probe writes for a `FileWriteVEvent` (its own kind, the current schema
/// version, its size) is dispatched as that very record.
#[verifier::rlimit(50)]
pub proof fn law_file_write_v_event_dispatched_as_written(
    e: FileWriteVEvent,
    file_config: Option<&FileConfig>,
    persistence: Seq<PersistenceRule>,
    network: Seq<NetworkDetectionRule>,
    resolved_path: Seq<char>,
    before: ProcessTable,
    after: ProcessTable,
    r: DispatchResult,
)
    requires
        e.header.kind == 10,
        e.header.version == 1,
        e.header.size == 56,
    ensures
        dispatch_outcome(
            file::file_write_v_event_bytes(e),
            file_config,
            persistence,
            network,
            resolved_path,
            before,
            after,
            r,
        ) <==> (after == before && nfile::file_write_v_result(e, resolved_path, file_config, before.records(), persistence, as_option(r))
                && (r is Normalized || r is Filtered)),
{
    let b = file::file_write_v_event_bytes(e);
    file::lemma_file_write_v_event_bytes(e);
    let d = choose|d: FileWriteVEvent| file::file_write_v_event_layout(b, d);
    file::lemma_file_write_v_event_layout_unique(b, e, d);
    assert(raw_kind(b) == 10 && raw_version(b) == 1 && raw_size(b) == 56);
    assert(schema_ok(b) && size_ok(b));
    assert(d == e);
}

/// What a probe writes for a `FilePWrite64Event` (its own kind, the current schema
/// version, its size) is dispatched as that very record.
#[verifier::rlimit(50)]
pub proof fn law_file_pwrite64_event_dispatched_as_written(
    e: FilePWrite64Event,
    file_config: Option<&FileConfig>,
    persistence: Seq<PersistenceRule>,
    network: Seq<NetworkDetectionRule>,
    resolved_path: Seq<char>,
    before: ProcessTable,
    after: ProcessTable,
    r: DispatchResult,
)
    requires
        e.header.kind == 11,
        e.header.version == 1,
        e.header.size == 64,
    ensures
        dispatch_outcome(
            file::file_pwrite64_event_bytes(e),
            file_config,
            persistence,
            network,
            resolved_path,
            before,
            after,
            r,
        ) <==> (after == before && nfile::file_pwrite64_result(e, resolved_path, file_config, before.records(), persistence, as_option(r))
                && (r is Normalized || r is Filtered)),
{
    let b = file::file_pwrite64_event_bytes(e);
    file::lemma_file_pwrite64_event_bytes(e);
    let d = choose|d: FilePWrite64Event| file::file_pwrite64_event_layout(b, d);
    file::lemma_file_pwrite64_event_layout_unique(b, e, d);
    assert(raw_kind(b) == 11 && raw_version(b) == 1 && raw_size(b) == 64);
    assert(schema_ok(b) && size_ok(b));
    assert(d == e);
}

/// What a probe writes for a `FileRenameEvent` (its own kind, the current schema
/// version, its size) is dispatched as that very record.
#[verifier::rlimit(50)]
pub proof fn law_file_rename_event_dispatched_as_written(
    e: FileRenameEvent,
    file_config: Option<&FileConfig>,
    persistence: Seq<PersistenceRule>,
    network: Seq<NetworkDetectionRule>,
    resolved_path: Seq<char>,
    before: ProcessTable,
    after: ProcessTable,
    r: DispatchResult,
)
    requires
        e.header.kind == 12,
        e.header.version == 1,
        e.header.size == 560,
    ensures
        dispatch_outcome(
            file::file_rename_event_bytes(e),
            file_config,
            persistence,
            network,
            resolved_path,
            before,
            after,
            r,
        ) <==> (after == before && nfile::file_rename_result(e, file_config, before.records(), persistence, as_option(r))
                && (r is Normalized || r is Filtered)),
{
    let b = file::file_rename_event_bytes(e);
    file::lemma_file_rename_event_bytes(e);
    let d = choose|d: FileRenameEvent| file::file_rename_event_layout(b, d);
    file::lemma_file_rename_event_layout_unique(b, e, d);
    assert(raw_kind(b) == 12 && raw_version(b) == 1 && raw_size(b) == 560);
    assert(schema_ok(b) && size_ok(b));
    assert(d == e);
}

/// What a probe writes for a `FileRenameAtEvent` (its own kind, the current schema
/// version, its size) is dispatched as that very record.
#[verifier::rlimit(50)]
pub proof fn law_file_rename_at_event_dispatched_as_written(
    e: FileRenameAtEvent,
    file_config: Option<&FileConfig>,
    persistence: Seq<PersistenceRule>,
    network: Seq<NetworkDetectionRule>,
    resolved_path: Seq<char>,
    before: ProcessTable,
    after: ProcessTable,
    r: DispatchResult,
)
    requires
        e.header.kind == 13,
        e.header.version == 1,
        e.header.size == 560,
    ensures
        dispatch_outcome(
            file::file_rename_at_event_bytes(e),
            file_config,
            persistence,
            network,
            resolved_path,
            before,
            after,
            r,
        ) <==> (after == before && nfile::file_rename_at_result(e, file_config, before.records(), persistence, as_option(r))
                && (r is Normalized || r is Filtered)),
{
    let b = file::file_rename_at_event_bytes(e);
    file::lemma_file_rename_at_event_bytes(e);
    let d = choose|d: FileRenameAtEvent| file::file_rename_at_event_layout(b, d);
    file::lemma_file_rename_at_event_layout_unique(b, e, d);
    assert(raw_kind(b) == 13 && raw_version(b) == 1 && raw_size(b) == 560);
    assert(schema_ok(b) && size_ok(b));
    assert(d == e);
}

/// What a probe writes for a `FileRenameAt2Event` (its own kind, the current schema
/// version, its size) is dispatched as that very record.
#[verifier::rlimit(50)]
pub proof fn law_file_rename_at2_event_dispatched_as_written(
    e: FileRenameAt2Event,
    file_config: Option<&FileConfig>,
    persistence: Seq<PersistenceRule>,
    network: Seq<NetworkDetectionRule>,
    resolved_path: Seq<char>,
    before: ProcessTable,
    after: ProcessTable,
    r: DispatchResult,
)
    requires
        e.header.kind == 14,
        e.header.version == 1,
        e.header.size == 568,
    ensures
        dispatch_outcome(
            file::file_rename_at2_event_bytes(e),
            file_config,
            persistence,
            network,
            resolved_path,
            before,
            after,
            r,
        ) <==> (after == before && nfile::file_rename_at2_result(e, file_config, before.records(), persistence, as_option(r))
                && (r is Normalized || r is Filtered)),
{
    let b = file::file_rename_at2_event_bytes(e);
    file::lemma_file_rename_at2_event_bytes(e);
    let d = choose|d: FileRenameAt2Event| file::file_rename_at2_event_layout(b, d);
    file::lemma_file_rename_at2_event_layout_unique(b, e, d);
    assert(raw_kind(b) == 14 && raw_version(b) == 1 && raw_size(b) == 568);
    assert(schema_ok(b) && size_ok(b));
    assert(d == e);
}

/// What a probe writes for a `FileUnlinkEvent` (its own kind, the current schema
/// version, its size) is dispatched as that very record.
#[verifier::rlimit(50)]
pub proof fn law_file_unlink_event_dispatched_as_written(
    e: FileUnlinkEvent,
    file_config: Option<&FileConfig>,
    persistence: Seq<PersistenceRule>,
    network: Seq<NetworkDetectionRule>,
    resolved_path: Seq<char>,
    before: ProcessTable,
    after: ProcessTable,
    r: DispatchResult,
)
    requires
        e.header.kind == 15,
        e.header.version == 1,
        e.header.size == 304,
    ensures
        dispatch_outcome(
            file::file_unlink_event_bytes(e),
            file_config,
            persistence,
            network,
            resolved_path,
            before,
            after,
            r,
        ) <==> (after == before && nfile::file_unlink_result(e, file_config, before.records(), persistence, as_option(r))
                && (r is Normalized || r is Filtered)),
{
    let b = file::file_unlink_event_bytes(e);
    file::lemma_file_unlink_event_bytes(e);
    let d = choose|d: FileUnlinkEvent| file::file_unlink_event_layout(b, d);
    file::lemma_file_unlink_event_layout_unique(b, e, d);
    assert(raw_kind(b) == 15 && raw_version(b) == 1 && raw_size(b) == 304);
    assert(schema_ok(b) && size_ok(b));
    assert(d == e);
}

/// What a probe writes for a `FileUnlinkAtEvent` (its own kind, the current schema
/// version, its size) is dispatched as that very record.
#[verifier::rlimit(50)]
pub proof fn law_file_unlink_at_event_dispatched_as_written(
    e: FileUnlinkAtEvent,
    file_config: Option<&FileConfig>,
    persistence: Seq<PersistenceRule>,
    network: Seq<NetworkDetectionRule>,
    resolved_path: Seq<char>,
    before: ProcessTable,
    after: ProcessTable,
    r: DispatchResult,
)
    requires
        e.header.kind == 16,
        e.header.version == 1,
        e.header.size == 312,
    ensures
        dispatch_outcome(
            file::file_unlink_at_event_bytes(e),
            file_config,
            persistence,
            network,
            resolved_path,
            before,
            after,
            r,
        ) <==> (after == before && nfile::file_unlink_at_result(e, file_config, before.records(), persistence, as_option(r))
                && (r is Normalized || r is Filtered)),
{
    let b = file::file_unlink_at_event_bytes(e);
    file::lemma_file_unlink_at_event_bytes(e);
    let d = choose|d: FileUnlinkAtEvent| file::file_unlink_at_event_layout(b, d);
    file::lemma_file_unlink_at_event_layout_unique(b, e, d);
    assert(raw_kind(b) == 16 && raw_version(b) == 1 && raw_size(b) == 312);
    assert(schema_ok(b) && size_ok(b));
    assert(d == e);
}

/// What a probe writes for a `NetworkBindEvent` (its own kind, the current schema
/// version, its size) is dispatched as that very record.
#[verifier::rlimit(50)]
pub proof fn law_network_bind_event_dispatched_as_written(
    e: NetworkBindEvent,
    file_config: Option<&FileConfig>,
    persistence: Seq<PersistenceRule>,
    network: Seq<NetworkDetectionRule>,
    resolved_path: Seq<char>,
    before: ProcessTable,
    after: ProcessTable,
    r: DispatchResult,
)
    requires
        e.header.kind == 17,
        e.header.version == 1,
        e.header.size == 104,
    ensures
        dispatch_outcome(
            network::network_bind_event_bytes(e),
            file_config,
            persistence,
            network,
            resolved_path,
            before,
            after,
            r,
        ) <==> (after == before && nnet::network_bind_result(e, before.records(), network, as_option(r))
                && (r is Normalized || r is Filtered)),
{
    let b = network::network_bind_event_bytes(e);
    network::lemma_network_bind_event_bytes(e);
    let d = choose|d: NetworkBindEvent| network::network_bind_event_layout(b, d);
    network::lemma_network_bind_event_layout_unique(b, e, d);
    assert(raw_kind(b) == 17 && raw_version(b) == 1 && raw_size(b) == 104);
    assert(schema_ok(b) && size_ok(b));
    assert(d == e);
}

/// What a probe writes for a `NetworkListenEvent` (its own kind, the current schema
/// version, its size) is dispatched as that very record.
#[verifier::rlimit(50)]
pub proof fn law_network_listen_event_dispatched_as_written(
    e: NetworkListenEvent,
    file_config: Option<&FileConfig>,
    persistence: Seq<PersistenceRule>,
    network: Seq<NetworkDetectionRule>,
    resolved_path: Seq<char>,
    before: ProcessTable,
    after: ProcessTable,
    r: DispatchResult,
)
    requires
        e.header.kind == 18,
        e.header.version == 1,
        e.header.size == 104,
    ensures
        dispatch_outcome(
            network::network_listen_event_bytes(e),
            file_config,
            persistence,
            network,
            resolved_path,
            before,
            after,
            r,
        ) <==> (after == before && nnet::network_listen_result(e, before.records(), network, as_option(r))
                && (r is Normalized || r is Filtered)),
{
    let b = network::network_listen_event_bytes(e);
    network::lemma_network_listen_event_bytes(e);
    let d = choose|d: NetworkListenEvent| network::network_listen_event_layout(b, d);
    network::lemma_network_listen_event_layout_unique(b, e, d);
    assert(raw_kind(b) == 18 && raw_version(b) == 1 && raw_size(b) == 104);
    assert(schema_ok(b) && size_ok(b));
    assert(d == e);
}

} // verus!
