//! Normalization of file activity records: filtering, enrichment and
//! persistence detection.
use vstd::prelude::*;
use crate::abi::{
    FileOpenAt2Event, FileOpenEvent, FilePWrite64Event, FileRenameAt2Event, FileRenameAtEvent,
    FileRenameEvent, FileUnlinkAtEvent, FileUnlinkEvent, FileWriteEvent, FileWriteVEvent,
};
use crate::config::{FileConfig, PersistenceRule};
use crate::normalize::helpers::{
    detect_for_path, detect_for_paths, enrich_from_table, filename_truncated,
    passes_file_filter_opt,
};
use crate::normalize::helpers;
use crate::normalize::types::{
    FileOpen, FileOpenAt2, FilePWrite64, FileRename, FileRenameAt, FileRenameAt2, FileUnlink,
    FileUnlinkAt, FileWrite, FileWriteV, NormalizedEvent,
};
use crate::process_table::{ProcessRecord, ProcessTable};
use crate::detections;
use crate::text::fixed_string;
use crate::text;

verus! {

/// The persistence detection of a rename: the first rule that fires for the
/// old name, else for the new one.
pub open spec fn rename_detection(
    old_name: Seq<char>,
    new_name: Seq<char>,
    rules: Seq<PersistenceRule>,
) -> Option<String> {
    helpers::first_path_detection(seq![old_name, new_name], "file_rename"@, rules)
}

/// Persistence detection over the old and the new name of a rename.
fn detect_rename(old_name: &str, new_name: &str, rules: &[PersistenceRule]) -> (r: (
    bool,
    Option<String>,
))
    ensures
        r == helpers::detection_result(rename_detection(old_name@, new_name@, rules@)),
{
    let paths: [&str; 2] = [old_name, new_name];
    let r = detect_for_paths(&paths, "file_rename", rules);
    assert(paths@.map_values(|p: &str| p@) =~= seq![old_name@, new_name@]);
    r
}

/// The `FileOpen` event reported for a record that passed the filter.
pub open spec fn file_open_reported(
    f: FileOpen,
    event: FileOpenEvent,
    records: Map<u64, ProcessRecord>,
    rules: Seq<PersistenceRule>,
) -> bool {
    &&& f.filename@ == text::fixed_text(event.filename@)
    &&& f.pid == event.header.pid
    &&& f.tid == event.header.tid
    &&& f.uid == event.header.uid
    &&& f.gid == event.header.gid
    &&& f.timestamp_ns == event.header.timestamp_ns
    &&& helpers::enriched(records, event.header.pid, event.header.tid, Seq::empty(), f.comm@, f.exe_path@, f.ppid)
    &&& f.flags == event.flags
    &&& f.filename_truncated == helpers::filename_cut(event.header.flags)
    &&& (f.alert, f.detection_type) == helpers::detection_result(
        detections::first_persistence_match(rules, f.filename@, "file_open"@),
    )
}

/// What normalizing a `FileOpenEvent` gives: `None` when the file filter drops
/// its name, else the reported event.
pub open spec fn file_open_result(
    event: FileOpenEvent,
    file_config: Option<&FileConfig>,
    records: Map<u64, ProcessRecord>,
    rules: Seq<PersistenceRule>,
    r: Option<NormalizedEvent>,
) -> bool {
    match r {
        None => !helpers::file_filter_opt_passes(text::fixed_text(event.filename@), file_config),
        Some(NormalizedEvent::FileOpen(f)) => helpers::file_filter_opt_passes(f.filename@, file_config)
            && file_open_reported(f, event, records, rules),
        Some(_) => false,
    }
}

/// Filter, enrich and annotate a `FileOpenEvent`; `None` when the file filter
/// drops it.
pub fn normalize_file_open(
    event: &FileOpenEvent,
    table: &mut ProcessTable,
    file_config: Option<&FileConfig>,
    detections: &[PersistenceRule],
) -> (r: Option<NormalizedEvent>)
    ensures
        *final(table) == *old(table),
        file_open_result(*event, file_config, old(table).records(), detections@, r),
{
    let filename = fixed_string(&event.filename, 256);
    assert(event.filename@.take(256) =~= event.filename@);
    if !passes_file_filter_opt(filename.as_str(), file_config) {
        return None;
    }
    let truncated = filename_truncated(event.header.flags);
    let (comm, exe_path, ppid) = enrich_from_table(&event.header, table);
    let (alert, detection_type) = detect_for_path(filename.as_str(), "file_open", detections);
    Some(
        NormalizedEvent::FileOpen(
            FileOpen {
                pid: event.header.pid,
                tid: event.header.tid,
                ppid,
                uid: event.header.uid,
                gid: event.header.gid,
                comm,
                exe_path,
                filename,
                flags: event.flags,
                filename_truncated: truncated,
                alert,
                detection_type,
                timestamp_ns: event.header.timestamp_ns,
            },
        ),
    )
}

/// The `FileOpenAt2` event reported for a record that passed the filter.
pub open spec fn file_open_at2_reported(
    f: FileOpenAt2,
    event: FileOpenAt2Event,
    records: Map<u64, ProcessRecord>,
    rules: Seq<PersistenceRule>,
) -> bool {
    &&& f.filename@ == text::fixed_text(event.filename@)
    &&& f.pid == event.header.pid
    &&& f.tid == event.header.tid
    &&& f.uid == event.header.uid
    &&& f.gid == event.header.gid
    &&& f.timestamp_ns == event.header.timestamp_ns
    &&& helpers::enriched(records, event.header.pid, event.header.tid, Seq::empty(), f.comm@, f.exe_path@, f.ppid)
    &&& f.flags == event.flags
    &&& f.filename_truncated == helpers::filename_cut(event.header.flags)
    &&& (f.alert, f.detection_type) == helpers::detection_result(
        detections::first_persistence_match(rules, f.filename@, "file_open"@),
    )
}

/// What normalizing a `FileOpenAt2Event` gives: `None` when the file filter drops
/// its name, else the reported event.
pub open spec fn file_open_at2_result(
    event: FileOpenAt2Event,
    file_config: Option<&FileConfig>,
    records: Map<u64, ProcessRecord>,
    rules: Seq<PersistenceRule>,
    r: Option<NormalizedEvent>,
) -> bool {
    match r {
        None => !helpers::file_filter_opt_passes(text::fixed_text(event.filename@), file_config),
        Some(NormalizedEvent::FileOpenAt2(f)) => helpers::file_filter_opt_passes(f.filename@, file_config)
            && file_open_at2_reported(f, event, records, rules),
        Some(_) => false,
    }
}

/// Filter, enrich and annotate a `FileOpenAt2Event`; `None` when the file filter
/// drops it.
pub fn normalize_file_openat2(
    event: &FileOpenAt2Event,
    table: &mut ProcessTable,
    file_config: Option<&FileConfig>,
    detections: &[PersistenceRule],
) -> (r: Option<NormalizedEvent>)
    ensures
        *final(table) == *old(table),
        file_open_at2_result(*event, file_config, old(table).records(), detections@, r),
{
    let filename = fixed_string(&event.filename, 256);
    assert(event.filename@.take(256) =~= event.filename@);
    if !passes_file_filter_opt(filename.as_str(), file_config) {
        return None;
    }
    let truncated = filename_truncated(event.header.flags);
    let (comm, exe_path, ppid) = enrich_from_table(&event.header, table);
    let (alert, detection_type) = detect_for_path(filename.as_str(), "file_open", detections);
    Some(
        NormalizedEvent::FileOpenAt2(
            FileOpenAt2 {
                pid: event.header.pid,
                tid: event.header.tid,
                ppid,
                uid: event.header.uid,
                gid: event.header.gid,
                comm,
                exe_path,
                filename,
                flags: event.flags,
                filename_truncated: truncated,
                alert,
                detection_type,
                timestamp_ns: event.header.timestamp_ns,
            },
        ),
    )
}

/// The `FileUnlink` event reported for a record that passed the filter.
pub open spec fn file_unlink_reported(
    f: FileUnlink,
    event: FileUnlinkEvent,
    records: Map<u64, ProcessRecord>,
    rules: Seq<PersistenceRule>,
) -> bool {
    &&& f.filename@ == text::fixed_text(event.filename@)
    &&& f.pid == event.header.pid
    &&& f.tid == event.header.tid
    &&& f.uid == event.header.uid
    &&& f.gid == event.header.gid
    &&& f.timestamp_ns == event.header.timestamp_ns
    &&& helpers::enriched(records, event.header.pid, event.header.tid, Seq::empty(), f.comm@, f.exe_path@, f.ppid)
    &&& f.filename_truncated == helpers::filename_cut(event.header.flags)
    &&& (f.alert, f.detection_type) == helpers::detection_result(
        detections::first_persistence_match(rules, f.filename@, "file_unlink"@),
    )
}

/// What normalizing a `FileUnlinkEvent` gives: `None` when the file filter drops
/// its name, else the reported event.
pub open spec fn file_unlink_result(
    event: FileUnlinkEvent,
    file_config: Option<&FileConfig>,
    records: Map<u64, ProcessRecord>,
    rules: Seq<PersistenceRule>,
    r: Option<NormalizedEvent>,
) -> bool {
    match r {
        None => !helpers::file_filter_opt_passes(text::fixed_text(event.filename@), file_config),
        Some(NormalizedEvent::FileUnlink(f)) => helpers::file_filter_opt_passes(f.filename@, file_config)
            && file_unlink_reported(f, event, records, rules),
        Some(_) => false,
    }
}

/// Filter, enrich and annotate a `FileUnlinkEvent`; `None` when the file filter
/// drops it.
pub fn normalize_file_unlink(
    event: &FileUnlinkEvent,
    table: &mut ProcessTable,
    file_config: Option<&FileConfig>,
    detections: &[PersistenceRule],
) -> (r: Option<NormalizedEvent>)
    ensures
        *final(table) == *old(table),
        file_unlink_result(*event, file_config, old(table).records(), detections@, r),
{
    let filename = fixed_string(&event.filename, 256);
    assert(event.filename@.take(256) =~= event.filename@);
    if !passes_file_filter_opt(filename.as_str(), file_config) {
        return None;
    }
    let truncated = filename_truncated(event.header.flags);
    let (comm, exe_path, ppid) = enrich_from_table(&event.header, table);
    let (alert, detection_type) = detect_for_path(filename.as_str(), "file_unlink", detections);
    Some(
        NormalizedEvent::FileUnlink(
            FileUnlink {
                pid: event.header.pid,
                tid: event.header.tid,
                ppid,
                uid: event.header.uid,
                gid: event.header.gid,
                comm,
                exe_path,
                filename,
                filename_truncated: truncated,
                alert,
                detection_type,
                timestamp_ns: event.header.timestamp_ns,
            },
        ),
    )
}

/// The `FileUnlinkAt` event reported for a record that passed the filter.
pub open spec fn file_unlink_at_reported(
    f: FileUnlinkAt,
    event: FileUnlinkAtEvent,
    records: Map<u64, ProcessRecord>,
    rules: Seq<PersistenceRule>,
) -> bool {
    &&& f.filename@ == text::fixed_text(event.filename@)
    &&& f.pid == event.header.pid
    &&& f.tid == event.header.tid
    &&& f.uid == event.header.uid
    &&& f.gid == event.header.gid
    &&& f.timestamp_ns == event.header.timestamp_ns
    &&& helpers::enriched(records, event.header.pid, event.header.tid, Seq::empty(), f.comm@, f.exe_path@, f.ppid)
    &&& f.flags == event.flags
    &&& f.filename_truncated == helpers::filename_cut(event.header.flags)
    &&& (f.alert, f.detection_type) == helpers::detection_result(
        detections::first_persistence_match(rules, f.filename@, "file_unlink"@),
    )
}

/// What normalizing a `FileUnlinkAtEvent` gives: `None` when the file filter drops
/// its name, else the reported event.
pub open spec fn file_unlink_at_result(
    event: FileUnlinkAtEvent,
    file_config: Option<&FileConfig>,
    records: Map<u64, ProcessRecord>,
    rules: Seq<PersistenceRule>,
    r: Option<NormalizedEvent>,
) -> bool {
    match r {
        None => !helpers::file_filter_opt_passes(text::fixed_text(event.filename@), file_config),
        Some(NormalizedEvent::FileUnlinkAt(f)) => helpers::file_filter_opt_passes(f.filename@, file_config)
            && file_unlink_at_reported(f, event, records, rules),
        Some(_) => false,
    }
}

/// Filter, enrich and annotate a `FileUnlinkAtEvent`; `None` when the file filter
/// drops it.
pub fn normalize_file_unlinkat(
    event: &FileUnlinkAtEvent,
    table: &mut ProcessTable,
    file_config: Option<&FileConfig>,
    detections: &[PersistenceRule],
) -> (r: Option<NormalizedEvent>)
    ensures
        *final(table) == *old(table),
        file_unlink_at_result(*event, file_config, old(table).records(), detections@, r),
{
    let filename = fixed_string(&event.filename, 256);
    assert(event.filename@.take(256) =~= event.filename@);
    if !passes_file_filter_opt(filename.as_str(), file_config) {
        return None;
    }
    let truncated = filename_truncated(event.header.flags);
    let (comm, exe_path, ppid) = enrich_from_table(&event.header, table);
    let (alert, detection_type) = detect_for_path(filename.as_str(), "file_unlink", detections);
    Some(
        NormalizedEvent::FileUnlinkAt(
            FileUnlinkAt {
                pid: event.header.pid,
                tid: event.header.tid,
                ppid,
                uid: event.header.uid,
                gid: event.header.gid,
                comm,
                exe_path,
                filename,
                flags: event.flags,
                filename_truncated: truncated,
                alert,
                detection_type,
                timestamp_ns: event.header.timestamp_ns,
            },
        ),
    )
}

/// The `FileWrite` event reported for a write whose descriptor resolved to a
/// path that passed the filter.
pub open spec fn file_write_reported(
    f: FileWrite,
    event: FileWriteEvent,
    resolved_path: Seq<char>,
    records: Map<u64, ProcessRecord>,
    rules: Seq<PersistenceRule>,
) -> bool {
    &&& f.resolved_path@ == resolved_path
    &&& f.fd == event.fd
    &&& f.pid == event.header.pid
    &&& f.tid == event.header.tid
    &&& f.uid == event.header.uid
    &&& f.gid == event.header.gid
    &&& f.timestamp_ns == event.header.timestamp_ns
    &&& helpers::enriched(records, event.header.pid, event.header.tid, Seq::empty(), f.comm@, f.exe_path@, f.ppid)
    &&& f.count == event.count
    &&& (f.alert, f.detection_type) == helpers::detection_result(
        detections::first_persistence_match(rules, resolved_path, "file_write"@),
    )
}

/// What normalizing a `FileWriteEvent` gives, for the path its descriptor
/// resolved to: `None` when the file filter drops that path, else the
/// reported event.
pub open spec fn file_write_result(
    event: FileWriteEvent,
    resolved_path: Seq<char>,
    file_config: Option<&FileConfig>,
    records: Map<u64, ProcessRecord>,
    rules: Seq<PersistenceRule>,
    r: Option<NormalizedEvent>,
) -> bool {
    match r {
        None => !helpers::file_filter_opt_passes(resolved_path, file_config),
        Some(NormalizedEvent::FileWrite(f)) => helpers::file_filter_opt_passes(resolved_path, file_config)
            && file_write_reported(f, event, resolved_path, records, rules),
        Some(_) => false,
    }
}

/// Filter, enrich and annotate a `FileWriteEvent`.  `resolved_path` is the path
/// that the written descriptor resolved to (empty when it could not be
/// resolved); `None` when the file filter drops it.
pub fn normalize_file_write(
    event: &FileWriteEvent,
    table: &mut ProcessTable,
    file_config: Option<&FileConfig>,
    detections: &[PersistenceRule],
    resolved_path: &str,
) -> (r: Option<NormalizedEvent>)
    ensures
        *final(table) == *old(table),
        file_write_result(*event, resolved_path@, file_config, old(table).records(), detections@, r),
{
    if !passes_file_filter_opt(resolved_path, file_config) {
        return None;
    }
    let (comm, exe_path, ppid) = enrich_from_table(&event.header, table);
    let (alert, detection_type) = detect_for_path(resolved_path, "file_write", detections);
    Some(
        NormalizedEvent::FileWrite(
            FileWrite {
                pid: event.header.pid,
                tid: event.header.tid,
                ppid,
                uid: event.header.uid,
                gid: event.header.gid,
                comm,
                exe_path,
                fd: event.fd,
                count: event.count,
                resolved_path: text::owned(resolved_path),
                alert,
                detection_type,
                timestamp_ns: event.header.timestamp_ns,
            },
        ),
    )
}

/// The `FileWriteV` event reported for a write whose descriptor resolved to a
/// path that passed the filter.
pub open spec fn file_write_v_reported(
    f: FileWriteV,
    event: FileWriteVEvent,
    resolved_path: Seq<char>,
    records: Map<u64, ProcessRecord>,
    rules: Seq<PersistenceRule>,
) -> bool {
    &&& f.resolved_path@ == resolved_path
    &&& f.fd == event.fd
    &&& f.pid == event.header.pid
    &&& f.tid == event.header.tid
    &&& f.uid == event.header.uid
    &&& f.gid == event.header.gid
    &&& f.timestamp_ns == event.header.timestamp_ns
    &&& helpers::enriched(records, event.header.pid, event.header.tid, Seq::empty(), f.comm@, f.exe_path@, f.ppid)
    &&& f.iovcnt == event.iovcnt
    &&& (f.alert, f.detection_type) == helpers::detection_result(
        detections::first_persistence_match(rules, resolved_path, "file_write"@),
    )
}

/// What normalizing a `FileWriteVEvent` gives, for the path its descriptor
/// resolved to: `None` when the file filter drops that path, else the
/// reported event.
pub open spec fn file_write_v_result(
    event: FileWriteVEvent,
    resolved_path: Seq<char>,
    file_config: Option<&FileConfig>,
    records: Map<u64, ProcessRecord>,
    rules: Seq<PersistenceRule>,
    r: Option<NormalizedEvent>,
) -> bool {
    match r {
        None => !helpers::file_filter_opt_passes(resolved_path, file_config),
        Some(NormalizedEvent::FileWriteV(f)) => helpers::file_filter_opt_passes(resolved_path, file_config)
            && file_write_v_reported(f, event, resolved_path, records, rules),
        Some(_) => false,
    }
}

/// Filter, enrich and annotate a `FileWriteVEvent`.  `resolved_path` is the path
/// that the written descriptor resolved to (empty when it could not be
/// resolved); `None` when the file filter drops it.
pub fn normalize_file_writev(
    event: &FileWriteVEvent,
    table: &mut ProcessTable,
    file_config: Option<&FileConfig>,
    detections: &[PersistenceRule],
    resolved_path: &str,
) -> (r: Option<NormalizedEvent>)
    ensures
        *final(table) == *old(table),
        file_write_v_result(*event, resolved_path@, file_config, old(table).records(), detections@, r),
{
    if !passes_file_filter_opt(resolved_path, file_config) {
        return None;
    }
    let (comm, exe_path, ppid) = enrich_from_table(&event.header, table);
    let (alert, detection_type) = detect_for_path(resolved_path, "file_write", detections);
    Some(
        NormalizedEvent::FileWriteV(
            FileWriteV {
                pid: event.header.pid,
                tid: event.header.tid,
                ppid,
                uid: event.header.uid,
                gid: event.header.gid,
                comm,
                exe_path,
                fd: event.fd,
                iovcnt: event.iovcnt,
                resolved_path: text::owned(resolved_path),
                alert,
                detection_type,
                timestamp_ns: event.header.timestamp_ns,
            },
        ),
    )
}

/// The `FilePWrite64` event reported for a write whose descriptor resolved to a
/// path that passed the filter.
pub open spec fn file_pwrite64_reported(
    f: FilePWrite64,
    event: FilePWrite64Event,
    resolved_path: Seq<char>,
    records: Map<u64, ProcessRecord>,
    rules: Seq<PersistenceRule>,
) -> bool {
    &&& f.resolved_path@ == resolved_path
    &&& f.fd == event.fd
    &&& f.pid == event.header.pid
    &&& f.tid == event.header.tid
    &&& f.uid == event.header.uid
    &&& f.gid == event.header.gid
    &&& f.timestamp_ns == event.header.timestamp_ns
    &&& helpers::enriched(records, event.header.pid, event.header.tid, Seq::empty(), f.comm@, f.exe_path@, f.ppid)
    &&& f.count == event.count
    &&& f.pos == event.pos
    &&& (f.alert, f.detection_type) == helpers::detection_result(
        detections::first_persistence_match(rules, resolved_path, "file_write"@),
    )
}

/// What normalizing a `FilePWrite64Event` gives, for the path its descriptor
/// resolved to: `None` when the file filter drops that path, else the
/// reported event.
pub open spec fn file_pwrite64_result(
    event: FilePWrite64Event,
    resolved_path: Seq<char>,
    file_config: Option<&FileConfig>,
    records: Map<u64, ProcessRecord>,
    rules: Seq<PersistenceRule>,
    r: Option<NormalizedEvent>,
) -> bool {
    match r {
        None => !helpers::file_filter_opt_passes(resolved_path, file_config),
        Some(NormalizedEvent::FilePWrite64(f)) => helpers::file_filter_opt_passes(resolved_path, file_config)
            && file_pwrite64_reported(f, event, resolved_path, records, rules),
        Some(_) => false,
    }
}

/// Filter, enrich and annotate a `FilePWrite64Event`.  `resolved_path` is the path
/// that the written descriptor resolved to (empty when it could not be
/// resolved); `None` when the file filter drops it.
pub fn normalize_file_pwrite64(
    event: &FilePWrite64Event,
    table: &mut ProcessTable,
    file_config: Option<&FileConfig>,
    detections: &[PersistenceRule],
    resolved_path: &str,
) -> (r: Option<NormalizedEvent>)
    ensures
        *final(table) == *old(table),
        file_pwrite64_result(*event, resolved_path@, file_config, old(table).records(), detections@, r),
{
    if !passes_file_filter_opt(resolved_path, file_config) {
        return None;
    }
    let (comm, exe_path, ppid) = enrich_from_table(&event.header, table);
    let (alert, detection_type) = detect_for_path(resolved_path, "file_write", detections);
    Some(
        NormalizedEvent::FilePWrite64(
            FilePWrite64 {
                pid: event.header.pid,
                tid: event.header.tid,
                ppid,
                uid: event.header.uid,
                gid: event.header.gid,
                comm,
                exe_path,
                fd: event.fd,
                count: event.count,
                pos: event.pos,
                resolved_path: text::owned(resolved_path),
                alert,
                detection_type,
                timestamp_ns: event.header.timestamp_ns,
            },
        ),
    )
}

/// The `FileRename` event reported for a rename one of whose names passed the
/// filter.
pub open spec fn file_rename_reported(
    f: FileRename,
    event: FileRenameEvent,
    records: Map<u64, ProcessRecord>,
    rules: Seq<PersistenceRule>,
) -> bool {
    &&& f.old_filename@ == text::fixed_text(event.old_filename@)
    &&& f.new_filename@ == text::fixed_text(event.new_filename@)
    &&& f.pid == event.header.pid
    &&& f.tid == event.header.tid
    &&& f.uid == event.header.uid
    &&& f.gid == event.header.gid
    &&& f.timestamp_ns == event.header.timestamp_ns
    &&& helpers::enriched(records, event.header.pid, event.header.tid, Seq::empty(), f.comm@, f.exe_path@, f.ppid)
    &&& f.filename_truncated == helpers::filename_cut(event.header.flags)
    &&& (f.alert, f.detection_type) == helpers::detection_result(
        rename_detection(f.old_filename@, f.new_filename@, rules),
    )
}

/// What normalizing a `FileRenameEvent` gives: `None` when the file filter drops
/// both names, else the reported event.
pub open spec fn file_rename_result(
    event: FileRenameEvent,
    file_config: Option<&FileConfig>,
    records: Map<u64, ProcessRecord>,
    rules: Seq<PersistenceRule>,
    r: Option<NormalizedEvent>,
) -> bool {
    match r {
        None => !helpers::file_filter_opt_passes(text::fixed_text(event.old_filename@), file_config)
            && !helpers::file_filter_opt_passes(text::fixed_text(event.new_filename@), file_config),
        Some(NormalizedEvent::FileRename(f)) => (helpers::file_filter_opt_passes(f.old_filename@, file_config)
            || helpers::file_filter_opt_passes(f.new_filename@, file_config))
            && file_rename_reported(f, event, records, rules),
        Some(_) => false,
    }
}

/// Filter, enrich and annotate a `FileRenameEvent`; `None` when the file filter
/// drops both names.
pub fn normalize_file_rename(
    event: &FileRenameEvent,
    table: &mut ProcessTable,
    file_config: Option<&FileConfig>,
    detections: &[PersistenceRule],
) -> (r: Option<NormalizedEvent>)
    ensures
        *final(table) == *old(table),
        file_rename_result(*event, file_config, old(table).records(), detections@, r),
{
    let old_filename = fixed_string(&event.old_filename, 256);
    let new_filename = fixed_string(&event.new_filename, 256);
    assert(event.old_filename@.take(256) =~= event.old_filename@);
    assert(event.new_filename@.take(256) =~= event.new_filename@);
    if !passes_file_filter_opt(old_filename.as_str(), file_config) && !passes_file_filter_opt(
        new_filename.as_str(),
        file_config,
    ) {
        return None;
    }
    let truncated = filename_truncated(event.header.flags);
    let (comm, exe_path, ppid) = enrich_from_table(&event.header, table);
    let (alert, detection_type) = detect_rename(old_filename.as_str(), new_filename.as_str(), detections);
    Some(
        NormalizedEvent::FileRename(
            FileRename {
                pid: event.header.pid,
                tid: event.header.tid,
                ppid,
                uid: event.header.uid,
                gid: event.header.gid,
                comm,
                exe_path,
                old_filename,
                new_filename,
                filename_truncated: truncated,
                alert,
                detection_type,
                timestamp_ns: event.header.timestamp_ns,
            },
        ),
    )
}

/// The `FileRenameAt` event reported for a rename one of whose names passed the
/// filter.
pub open spec fn file_rename_at_reported(
    f: FileRenameAt,
    event: FileRenameAtEvent,
    records: Map<u64, ProcessRecord>,
    rules: Seq<PersistenceRule>,
) -> bool {
    &&& f.old_filename@ == text::fixed_text(event.old_filename@)
    &&& f.new_filename@ == text::fixed_text(event.new_filename@)
    &&& f.pid == event.header.pid
    &&& f.tid == event.header.tid
    &&& f.uid == event.header.uid
    &&& f.gid == event.header.gid
    &&& f.timestamp_ns == event.header.timestamp_ns
    &&& helpers::enriched(records, event.header.pid, event.header.tid, Seq::empty(), f.comm@, f.exe_path@, f.ppid)
    &&& f.filename_truncated == helpers::filename_cut(event.header.flags)
    &&& (f.alert, f.detection_type) == helpers::detection_result(
        rename_detection(f.old_filename@, f.new_filename@, rules),
    )
}

/// What normalizing a `FileRenameAtEvent` gives: `None` when the file filter drops
/// both names, else the reported event.
pub open spec fn file_rename_at_result(
    event: FileRenameAtEvent,
    file_config: Option<&FileConfig>,
    records: Map<u64, ProcessRecord>,
    rules: Seq<PersistenceRule>,
    r: Option<NormalizedEvent>,
) -> bool {
    match r {
        None => !helpers::file_filter_opt_passes(text::fixed_text(event.old_filename@), file_config)
            && !helpers::file_filter_opt_passes(text::fixed_text(event.new_filename@), file_config),
        Some(NormalizedEvent::FileRenameAt(f)) => (helpers::file_filter_opt_passes(f.old_filename@, file_config)
            || helpers::file_filter_opt_passes(f.new_filename@, file_config))
            && file_rename_at_reported(f, event, records, rules),
        Some(_) => false,
    }
}

/// Filter, enrich and annotate a `FileRenameAtEvent`; `None` when the file filter
/// drops both names.
pub fn normalize_file_renameat(
    event: &FileRenameAtEvent,
    table: &mut ProcessTable,
    file_config: Option<&FileConfig>,
    detections: &[PersistenceRule],
) -> (r: Option<NormalizedEvent>)
    ensures
        *final(table) == *old(table),
        file_rename_at_result(*event, file_config, old(table).records(), detections@, r),
{
    let old_filename = fixed_string(&event.old_filename, 256);
    let new_filename = fixed_string(&event.new_filename, 256);
    assert(event.old_filename@.take(256) =~= event.old_filename@);
    assert(event.new_filename@.take(256) =~= event.new_filename@);
    if !passes_file_filter_opt(old_filename.as_str(), file_config) && !passes_file_filter_opt(
        new_filename.as_str(),
        file_config,
    ) {
        return None;
    }
    let truncated = filename_truncated(event.header.flags);
    let (comm, exe_path, ppid) = enrich_from_table(&event.header, table);
    let (alert, detection_type) = detect_rename(old_filename.as_str(), new_filename.as_str(), detections);
    Some(
        NormalizedEvent::FileRenameAt(
            FileRenameAt {
                pid: event.header.pid,
                tid: event.header.tid,
                ppid,
                uid: event.header.uid,
                gid: event.header.gid,
                comm,
                exe_path,
                old_filename,
                new_filename,
                filename_truncated: truncated,
                alert,
                detection_type,
                timestamp_ns: event.header.timestamp_ns,
            },
        ),
    )
}

/// The `FileRenameAt2` event reported for a rename one of whose names passed the
/// filter.
pub open spec fn file_rename_at2_reported(
    f: FileRenameAt2,
    event: FileRenameAt2Event,
    records: Map<u64, ProcessRecord>,
    rules: Seq<PersistenceRule>,
) -> bool {
    &&& f.old_filename@ == text::fixed_text(event.old_filename@)
    &&& f.new_filename@ == text::fixed_text(event.new_filename@)
    &&& f.pid == event.header.pid
    &&& f.tid == event.header.tid
    &&& f.uid == event.header.uid
    &&& f.gid == event.header.gid
    &&& f.timestamp_ns == event.header.timestamp_ns
    &&& helpers::enriched(records, event.header.pid, event.header.tid, Seq::empty(), f.comm@, f.exe_path@, f.ppid)
    &&& f.flags == event.flags
    &&& f.filename_truncated == helpers::filename_cut(event.header.flags)
    &&& (f.alert, f.detection_type) == helpers::detection_result(
        rename_detection(f.old_filename@, f.new_filename@, rules),
    )
}

/// What normalizing a `FileRenameAt2Event` gives: `None` when the file filter drops
/// both names, else the reported event.
pub open spec fn file_rename_at2_result(
    event: FileRenameAt2Event,
    file_config: Option<&FileConfig>,
    records: Map<u64, ProcessRecord>,
    rules: Seq<PersistenceRule>,
    r: Option<NormalizedEvent>,
) -> bool {
    match r {
        None => !helpers::file_filter_opt_passes(text::fixed_text(event.old_filename@), file_config)
            && !helpers::file_filter_opt_passes(text::fixed_text(event.new_filename@), file_config),
        Some(NormalizedEvent::FileRenameAt2(f)) => (helpers::file_filter_opt_passes(f.old_filename@, file_config)
            || helpers::file_filter_opt_passes(f.new_filename@, file_config))
            && file_rename_at2_reported(f, event, records, rules),
        Some(_) => false,
    }
}

/// Filter, enrich and annotate a `FileRenameAt2Event`; `None` when the file filter
/// drops both names.
pub fn normalize_file_renameat2(
    event: &FileRenameAt2Event,
    table: &mut ProcessTable,
    file_config: Option<&FileConfig>,
    detections: &[PersistenceRule],
) -> (r: Option<NormalizedEvent>)
    ensures
        *final(table) == *old(table),
        file_rename_at2_result(*event, file_config, old(table).records(), detections@, r),
{
    let old_filename = fixed_string(&event.old_filename, 256);
    let new_filename = fixed_string(&event.new_filename, 256);
    assert(event.old_filename@.take(256) =~= event.old_filename@);
    assert(event.new_filename@.take(256) =~= event.new_filename@);
    if !passes_file_filter_opt(old_filename.as_str(), file_config) && !passes_file_filter_opt(
        new_filename.as_str(),
        file_config,
    ) {
        return None;
    }
    let truncated = filename_truncated(event.header.flags);
    let (comm, exe_path, ppid) = enrich_from_table(&event.header, table);
    let (alert, detection_type) = detect_rename(old_filename.as_str(), new_filename.as_str(), detections);
    Some(
        NormalizedEvent::FileRenameAt2(
            FileRenameAt2 {
                pid: event.header.pid,
                tid: event.header.tid,
                ppid,
                uid: event.header.uid,
                gid: event.header.gid,
                comm,
                exe_path,
                old_filename,
                new_filename,
                flags: event.flags,
                filename_truncated: truncated,
                alert,
                detection_type,
                timestamp_ns: event.header.timestamp_ns,
            },
        ),
    )
}


/// A persistence rule fires for one of the two names of a rename whichever
/// name comes first.
pub proof fn lemma_rename_detection_symmetric(a: Seq<char>, b: Seq<char>, rules: Seq<PersistenceRule>)
    ensures
        rename_detection(a, b, rules) is Some <==> rename_detection(b, a, rules) is Some,
        rename_detection(a, b, rules) is Some <==> (detections::first_persistence_match(
            rules,
            a,
            "file_rename"@,
        ) is Some || detections::first_persistence_match(rules, b, "file_rename"@) is Some),
{
    assert(seq![a, b].skip(1) =~= seq![b]);
    assert(seq![b, a].skip(1) =~= seq![a]);
    assert(seq![a].skip(1) =~= Seq::<Seq<char>>::empty());
    assert(seq![b].skip(1) =~= Seq::<Seq<char>>::empty());
    reveal_with_fuel(helpers::first_path_detection, 3);
}

/// Swapping the two names of a `rename` record changes neither whether it
/// is kept nor whether it raises an alert.
pub proof fn law_rename_is_symmetric(
    e1: FileRenameEvent,
    e2: FileRenameEvent,
    file_config: Option<&FileConfig>,
    records: Map<u64, ProcessRecord>,
    rules: Seq<PersistenceRule>,
    r1: Option<NormalizedEvent>,
    r2: Option<NormalizedEvent>,
)
    requires
        e2.header == e1.header,
        e2.old_filename == e1.new_filename,
        e2.new_filename == e1.old_filename,
        file_rename_result(e1, file_config, records, rules, r1),
        file_rename_result(e2, file_config, records, rules, r2),
    ensures
        r1 is Some <==> r2 is Some,
        r1 matches Some(NormalizedEvent::FileRename(f1)) ==> (r2 matches Some(NormalizedEvent::FileRename(f2))
            && f1.alert == f2.alert),
{
    lemma_rename_detection_symmetric(text::fixed_text(e1.old_filename@), text::fixed_text(e1.new_filename@), rules);
}

/// Swapping the two names of a `renameat` record changes neither whether
/// it is kept nor whether it raises an alert.
pub proof fn law_renameat_is_symmetric(
    e1: FileRenameAtEvent,
    e2: FileRenameAtEvent,
    file_config: Option<&FileConfig>,
    records: Map<u64, ProcessRecord>,
    rules: Seq<PersistenceRule>,
    r1: Option<NormalizedEvent>,
    r2: Option<NormalizedEvent>,
)
    requires
        e2.header == e1.header,
        e2.old_filename == e1.new_filename,
        e2.new_filename == e1.old_filename,
        file_rename_at_result(e1, file_config, records, rules, r1),
        file_rename_at_result(e2, file_config, records, rules, r2),
    ensures
        r1 is Some <==> r2 is Some,
        r1 matches Some(NormalizedEvent::FileRenameAt(f1)) ==> (r2 matches Some(
            NormalizedEvent::FileRenameAt(f2),
        ) && f1.alert == f2.alert),
{
    lemma_rename_detection_symmetric(text::fixed_text(e1.old_filename@), text::fixed_text(e1.new_filename@), rules);
}

/// Swapping the two names of a `renameat2` record changes neither whether
/// it is kept nor whether it raises an alert.
pub proof fn law_renameat2_is_symmetric(
    e1: FileRenameAt2Event,
    e2: FileRenameAt2Event,
    file_config: Option<&FileConfig>,
    records: Map<u64, ProcessRecord>,
    rules: Seq<PersistenceRule>,
    r1: Option<NormalizedEvent>,
    r2: Option<NormalizedEvent>,
)
    requires
        e2.header == e1.header,
        e2.flags == e1.flags,
        e2.old_filename == e1.new_filename,
        e2.new_filename == e1.old_filename,
        file_rename_at2_result(e1, file_config, records, rules, r1),
        file_rename_at2_result(e2, file_config, records, rules, r2),
    ensures
        r1 is Some <==> r2 is Some,
        r1 matches Some(NormalizedEvent::FileRenameAt2(f1)) ==> (r2 matches Some(
            NormalizedEvent::FileRenameAt2(f2),
        ) && f1.alert == f2.alert),
{
    lemma_rename_detection_symmetric(text::fixed_text(e1.old_filename@), text::fixed_text(e1.new_filename@), rules);
}

} // verus!
