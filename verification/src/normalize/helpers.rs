//! What every normalizer shares: enrichment from the process table, the
//! userspace file filter, and the detections.
use vstd::prelude::*;
use crate::abi::EventHeader;
use crate::config::{FileConfig, NetworkDetectionRule, NetworkDirection, PersistenceRule};
use crate::detections::{check_network, check_persistence, matches_any_loose_pattern, starts_with_any};
use crate::detections;
use crate::process_table::{ProcessRecord, ProcessTable};
use crate::process_table;
use crate::text::fixed_string;
use crate::text;

verus! {

/// The process details that enrichment reports for `(pid, tid)`: the
/// record's name, executable and parent when known, else `fallback_comm`, an
/// empty executable and parent 0.
pub open spec fn enriched(
    records: Map<u64, ProcessRecord>,
    pid: u32,
    tid: u32,
    fallback_comm: Seq<char>,
    comm: Seq<char>,
    exe_path: Seq<char>,
    ppid: u32,
) -> bool {
    let k = process_table::table_key(pid, tid);
    if records.contains_key(k) {
        &&& comm == records[k].comm@
        &&& exe_path == records[k].exe_path@
        &&& ppid == records[k].ppid
    } else {
        &&& comm == fallback_comm
        &&& exe_path == Seq::<char>::empty()
        &&& ppid == 0
    }
}

/// Name, executable and parent of the event's process, from the table; all
/// empty (parent 0) for an unknown process.
pub fn enrich_from_table(header: &EventHeader, table: &ProcessTable) -> (r: (String, String, u32))
    ensures
        enriched(table.records(), header.pid, header.tid, Seq::empty(), r.0@, r.1@, r.2),
{
    let key = (header.pid, header.tid);
    match table.get(&key) {
        Some(record) => (record.comm.clone(), record.exe_path.clone(), record.ppid),
        None => (String::new(), String::new(), 0),
    }
}

/// As `enrich_from_table`, but an unknown process is named by the task name
/// the probe captured.
pub fn enrich_from_table_or_comm(header: &EventHeader, table: &ProcessTable, raw_comm: &[u8]) -> (r:
    (String, String, u32))
    ensures
        enriched(
            table.records(),
            header.pid,
            header.tid,
            text::fixed_text(raw_comm@),
            r.0@,
            r.1@,
            r.2,
        ),
{
    let key = (header.pid, header.tid);
    match table.get(&key) {
        Some(record) => (record.comm.clone(), record.exe_path.clone(), record.ppid),
        None => {
            let comm = fixed_string(raw_comm, raw_comm.len());
            assert(raw_comm@.take(raw_comm@.len() as int) =~= raw_comm@);
            (comm, String::new(), 0)
        },
    }
}

/// A detection result: an alert exactly when some rule fired, with its name.
pub open spec fn detection_result(found: Option<String>) -> (bool, Option<String>) {
    (found is Some, found)
}

/// The persistence detection for one path.
pub fn detect_for_path(path: &str, operation: &str, rules: &[PersistenceRule]) -> (r: (
    bool,
    Option<String>,
))
    ensures
        r == detection_result(detections::first_persistence_match(rules@, path@, operation@)),
{
    match check_persistence(path, operation, rules) {
        Some(name) => (true, Some(name)),
        None => (false, None),
    }
}

/// The first persistence rule that fires for the first path, in order, for
/// which any fires.
pub open spec fn first_path_detection(
    paths: Seq<Seq<char>>,
    operation: Seq<char>,
    rules: Seq<PersistenceRule>,
) -> Option<String>
    decreases paths.len(),
{
    if paths.len() == 0 {
        None
    } else {
        match detections::first_persistence_match(rules, paths[0], operation) {
            Some(name) => Some(name),
            None => first_path_detection(paths.skip(1), operation, rules),
        }
    }
}

/// The persistence detection for several paths of one operation.
pub fn detect_for_paths(paths: &[&str], operation: &str, rules: &[PersistenceRule]) -> (r: (
    bool,
    Option<String>,
))
    ensures
        r == detection_result(
            first_path_detection(paths@.map_values(|p: &str| p@), operation@, rules@),
        ),
{
    let ghost views = paths@.map_values(|p: &str| p@);
    let mut i: usize = 0;
    assert(views.skip(0) =~= views);
    while i < paths.len()
        invariant
            i <= paths@.len(),
            views == paths@.map_values(|p: &str| p@),
            first_path_detection(views, operation@, rules@) == first_path_detection(
                views.skip(i as int),
                operation@,
                rules@,
            ),
        decreases paths@.len() - i,
    {
        let ghost rest = views.skip(i as int);
        assert(rest[0] == paths@[i as int]@);
        if let Some(name) = check_persistence(paths[i], operation, rules) {
            return (true, Some(name));
        }
        assert(rest.skip(1) =~= views.skip(i + 1));
        i = i + 1;
    }
    assert(views.skip(i as int).len() == 0);
    (false, None)
}

/// The port detection for a socket operation.
pub fn detect_for_network(
    direction: NetworkDirection,
    port: u16,
    process_name: &str,
    rules: &[NetworkDetectionRule],
) -> (r: (bool, Option<String>))
    ensures
        r == detection_result(
            detections::first_network_match(rules@, direction, port, process_name@),
        ),
{
    match check_network(direction, port, process_name, rules) {
        Some(name) => (true, Some(name)),
        None => (false, None),
    }
}

/// The userspace file filter: with watch paths or patterns configured, the
/// name must start with a watch path or match a watch pattern; and it must
/// not start with an excluded path.
pub open spec fn file_filter_passes(name: Seq<char>, config: FileConfig) -> bool {
    let has_watch = config.watch_paths@.len() > 0 || config.watch_patterns@.len() > 0;
    &&& has_watch ==> (detections::any_prefix(name, config.watch_paths@)
        || detections::any_loose_pattern(name, config.watch_patterns@))
    &&& !detections::any_prefix(name, config.exclude_paths@)
}

/// Whether a file name passes the userspace file filter.
pub fn passes_file_filter(filename: &str, config: &FileConfig) -> (r: bool)
    ensures
        r == file_filter_passes(filename@, *config),
{
    let has_watch = config.watch_paths.len() != 0 || config.watch_patterns.len() != 0;
    if has_watch {
        let matches_prefix = starts_with_any(filename, config.watch_paths.as_slice());
        let matches_pattern = matches_any_loose_pattern(filename, config.watch_patterns.as_slice());
        if !matches_prefix && !matches_pattern {
            return false;
        }
    }
    !starts_with_any(filename, config.exclude_paths.as_slice())
}

/// The filter with no file configuration lets everything pass.
pub open spec fn file_filter_opt_passes(name: Seq<char>, config: Option<&FileConfig>) -> bool {
    match config {
        Some(c) => file_filter_passes(name, *c),
        None => true,
    }
}

/// Whether a file name passes the userspace file filter, if one is set.
pub fn passes_file_filter_opt(filename: &str, file_config: Option<&FileConfig>) -> (r: bool)
    ensures
        r == file_filter_opt_passes(filename@, file_config),
{
    match file_config {
        Some(config) => passes_file_filter(filename, config),
        None => true,
    }
}

/// The header flags mark a cut filename.
pub open spec fn filename_cut(flags: u16) -> bool {
    flags & 1u16 != 0
}

/// Whether the header flags mark a cut filename.
pub fn filename_truncated(flags: u16) -> (r: bool)
    ensures
        r == filename_cut(flags),
{
    flags & crate::abi::EVENT_FLAG_FILENAME_TRUNCATED != 0
}

} // verus!
