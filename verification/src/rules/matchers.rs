//! Matching primitives used by the rule engine, and the uniform views of
//! file and network events that rules are evaluated against.
use vstd::prelude::*;
use crate::config::NetworkDirection;
use crate::normalize::{
    FileOpen, FileOpenAt2, FilePWrite64, FileRename, FileRenameAt, FileRenameAt2, FileUnlink,
    FileUnlinkAt, FileWrite, FileWriteV, NetworkBind, NetworkConnect, NetworkListen,
    NormalizedEvent,
};
use crate::text::{
    ends_with_char, ends_with_tail, is_ext_glob, starts_with, starts_with_then, text_eq,
};
use crate::text;

verus! {

/// An empty name list matches everything; otherwise `value` must be one of the names.
pub open spec fn name_matches(names: Seq<String>, value: Seq<char>) -> bool {
    names.len() == 0 || exists|i: int| 0 <= i < names.len() && #[trigger] names[i]@ == value
}

/// Whether `value` passes the name list.
pub fn matches_name(names: &[String], value: &str) -> (r: bool)
    ensures
        r == name_matches(names@, value@),
{
    if names.len() == 0 {
        return true;
    }
    let mut i: usize = 0;
    while i < names.len()
        invariant
            i <= names@.len(),
            forall|j: int| 0 <= j < i ==> #[trigger] names@[j]@ != value@,
        decreases names@.len() - i,
    {
        if text_eq(names[i].as_str(), value) {
            return true;
        }
        i = i + 1;
    }
    false
}

/// The canonical name of a file operation: short aliases map to their `file_` form.
pub open spec fn canonical_text(op: Seq<char>) -> Seq<char> {
    if op == "open"@ || op == "file_open"@ {
        "file_open"@
    } else if op == "write"@ || op == "file_write"@ {
        "file_write"@
    } else if op == "rename"@ || op == "file_rename"@ {
        "file_rename"@
    } else if op == "unlink"@ || op == "file_unlink"@ {
        "file_unlink"@
    } else {
        op
    }
}

/// The canonical name of a file operation.
pub fn canonical_operation(operation: &str) -> (r: &str)
    ensures
        r@ == canonical_text(operation@),
{
    if text_eq(operation, "open") || text_eq(operation, "file_open") {
        "file_open"
    } else if text_eq(operation, "write") || text_eq(operation, "file_write") {
        "file_write"
    } else if text_eq(operation, "rename") || text_eq(operation, "file_rename") {
        "file_rename"
    } else if text_eq(operation, "unlink") || text_eq(operation, "file_unlink") {
        "file_unlink"
    } else {
        operation
    }
}

/// One configured operation covers `op`: it is the wildcard or names `op`.
pub open spec fn operation_entry_matches(entry: Seq<char>, op: Seq<char>) -> bool {
    entry == "*"@ || canonical_text(entry) == op
}

/// Some configured operation covers `op`.
pub open spec fn operation_matches(ops: Seq<String>, op: Seq<char>) -> bool {
    exists|i: int| 0 <= i < ops.len() && #[trigger] operation_entry_matches(ops[i]@, op)
}

/// Whether the configured operations cover `operation`.
pub fn matches_operation(operations: &[String], operation: &str) -> (r: bool)
    ensures
        r == operation_matches(operations@, operation@),
{
    let mut i: usize = 0;
    while i < operations.len()
        invariant
            i <= operations@.len(),
            forall|j: int| 0 <= j < i ==> !#[trigger] operation_entry_matches(
                operations@[j]@,
                operation@,
            ),
        decreases operations@.len() - i,
    {
        let op = operations[i].as_str();
        if text_eq(op, "*") || text_eq(canonical_operation(op), operation) {
            assert(operation_entry_matches(operations@[i as int]@, operation@));
            return true;
        }
        i = i + 1;
    }
    false
}

/// A rule pattern: `*.ext` matches a path ending in `.ext`; anything else
/// must equal the path.
pub open spec fn pattern_matches(path: Seq<char>, pattern: Seq<char>) -> bool {
    if text::ext_glob(pattern) {
        text::has_suffix(path, pattern.skip(1))
    } else {
        path == pattern
    }
}

/// Whether `path` matches one rule pattern.
pub fn matches_pattern(path: &str, pattern: &str) -> (r: bool)
    ensures
        r == pattern_matches(path@, pattern@),
{
    if is_ext_glob(pattern) {
        ends_with_tail(path, pattern, 1)
    } else {
        text_eq(path, pattern)
    }
}

/// A rule path: one ending in `/` is a directory and matches everything
/// below it; any other matches that exact file and everything below it.
pub open spec fn path_entry_matches(path: Seq<char>, entry: Seq<char>) -> bool {
    if entry.len() > 0 && entry.last() == '/' {
        text::has_prefix(path, entry)
    } else {
        path == entry || text::has_prefix(path, entry.push('/'))
    }
}

fn matches_path_entry(path: &str, entry: &str) -> (r: bool)
    ensures
        r == path_entry_matches(path@, entry@),
{
    if ends_with_char(entry, '/') {
        starts_with(path, entry)
    } else {
        text_eq(path, entry) || starts_with_then(path, entry, '/')
    }
}

/// Some rule path matches `path`.
pub open spec fn any_path_entry(path: Seq<char>, paths: Seq<String>) -> bool {
    exists|i: int| 0 <= i < paths.len() && #[trigger] path_entry_matches(path, paths[i]@)
}

/// Some rule pattern matches `path`.
pub open spec fn any_pattern(path: Seq<char>, patterns: Seq<String>) -> bool {
    exists|i: int| 0 <= i < patterns.len() && #[trigger] pattern_matches(path, patterns[i]@)
}

/// A rule's paths and patterns select `path`: when both are given both must
/// match, when one is given it must match, and a rule with neither selects nothing.
pub open spec fn path_rule_matches(path: Seq<char>, paths: Seq<String>, patterns: Seq<String>) -> bool {
    if paths.len() > 0 && patterns.len() > 0 {
        any_path_entry(path, paths) && any_pattern(path, patterns)
    } else if paths.len() > 0 {
        any_path_entry(path, paths)
    } else if patterns.len() > 0 {
        any_pattern(path, patterns)
    } else {
        false
    }
}

fn matches_any_path_entry(path: &str, paths: &[String]) -> (r: bool)
    ensures
        r == any_path_entry(path@, paths@),
{
    let mut i: usize = 0;
    while i < paths.len()
        invariant
            i <= paths@.len(),
            forall|j: int| 0 <= j < i ==> !#[trigger] path_entry_matches(path@, paths@[j]@),
        decreases paths@.len() - i,
    {
        if matches_path_entry(path, paths[i].as_str()) {
            return true;
        }
        i = i + 1;
    }
    false
}

fn matches_any_pattern(path: &str, patterns: &[String]) -> (r: bool)
    ensures
        r == any_pattern(path@, patterns@),
{
    let mut i: usize = 0;
    while i < patterns.len()
        invariant
            i <= patterns@.len(),
            forall|j: int| 0 <= j < i ==> !#[trigger] pattern_matches(path@, patterns@[j]@),
        decreases patterns@.len() - i,
    {
        if matches_pattern(path, patterns[i].as_str()) {
            return true;
        }
        i = i + 1;
    }
    false
}

/// Whether a rule with these paths and patterns selects `path`.
pub fn matches_path_rule(path: &str, paths: &[String], patterns: &[String]) -> (r: bool)
    ensures
        r == path_rule_matches(path@, paths@, patterns@),
{
    let has_paths = paths.len() != 0;
    let has_patterns = patterns.len() != 0;
    if has_paths && has_patterns {
        matches_any_path_entry(path, paths) && matches_any_pattern(path, patterns)
    } else if has_paths {
        matches_any_path_entry(path, paths)
    } else if has_patterns {
        matches_any_pattern(path, patterns)
    } else {
        false
    }
}


/// The fields of a file event that file rules look at.
pub struct FileFields<'a> {
    pub source_event_type: &'static str,
    pub timestamp_ns: u64,
    pub pid: u32,
    pub tid: u32,
    pub ppid: u32,
    pub uid: u32,
    pub gid: u32,
    pub comm: &'a str,
    pub exe_path: &'a str,
    pub operation: &'static str,
    pub paths: Vec<&'a str>,
}

/// The fields of a network event that network rules look at.
pub struct NetworkFields<'a> {
    pub source_event_type: &'static str,
    pub timestamp_ns: u64,
    pub pid: u32,
    pub tid: u32,
    pub ppid: u32,
    pub uid: u32,
    pub gid: u32,
    pub comm: &'a str,
    pub exe_path: &'a str,
    pub family: &'a str,
    pub direction: NetworkDirection,
    pub port: u16,
    pub addr: &'a str,
}

/// What file rules see of a file event, every text taken by its characters.
pub struct FileFacts {
    pub source_event_type: Seq<char>,
    pub timestamp_ns: u64,
    pub pid: u32,
    pub tid: u32,
    pub ppid: u32,
    pub uid: u32,
    pub gid: u32,
    pub comm: Seq<char>,
    pub exe_path: Seq<char>,
    pub operation: Seq<char>,
    pub paths: Seq<Seq<char>>,
}

/// What network rules see of a network event, every text taken by its characters.
pub struct NetworkFacts {
    pub source_event_type: Seq<char>,
    pub timestamp_ns: u64,
    pub pid: u32,
    pub tid: u32,
    pub ppid: u32,
    pub uid: u32,
    pub gid: u32,
    pub comm: Seq<char>,
    pub exe_path: Seq<char>,
    pub family: Seq<char>,
    pub direction: NetworkDirection,
    pub port: u16,
    pub addr: Seq<char>,
}

impl<'a> FileFields<'a> {
    /// The facts these fields carry.
    pub open spec fn facts(&self) -> FileFacts {
        FileFacts {
            source_event_type: self.source_event_type@,
            timestamp_ns: self.timestamp_ns,
            pid: self.pid,
            tid: self.tid,
            ppid: self.ppid,
            uid: self.uid,
            gid: self.gid,
            comm: self.comm@,
            exe_path: self.exe_path@,
            operation: self.operation@,
            paths: self.paths@.map_values(|p: &str| p@),
        }
    }
}

impl<'a> NetworkFields<'a> {
    /// The facts these fields carry.
    pub open spec fn facts(&self) -> NetworkFacts {
        NetworkFacts {
            source_event_type: self.source_event_type@,
            timestamp_ns: self.timestamp_ns,
            pid: self.pid,
            tid: self.tid,
            ppid: self.ppid,
            uid: self.uid,
            gid: self.gid,
            comm: self.comm@,
            exe_path: self.exe_path@,
            family: self.family@,
            direction: self.direction,
            port: self.port,
            addr: self.addr@,
        }
    }
}

/// What file rules see of a normalized event; `None` for events that are not file events.
pub open spec fn file_event_facts(e: NormalizedEvent) -> Option<FileFacts> {
    match e {
        NormalizedEvent::FileOpen(file) => Some(FileFacts {
            source_event_type: "file_open"@,
            timestamp_ns: file.timestamp_ns,
            pid: file.pid,
            tid: file.tid,
            ppid: file.ppid,
            uid: file.uid,
            gid: file.gid,
            comm: file.comm@,
            exe_path: file.exe_path@,
            operation: "file_open"@,
            paths: seq![file.filename@],
        }),
        NormalizedEvent::FileOpenAt2(file) => Some(FileFacts {
            source_event_type: "file_openat2"@,
            timestamp_ns: file.timestamp_ns,
            pid: file.pid,
            tid: file.tid,
            ppid: file.ppid,
            uid: file.uid,
            gid: file.gid,
            comm: file.comm@,
            exe_path: file.exe_path@,
            operation: "file_open"@,
            paths: seq![file.filename@],
        }),
        NormalizedEvent::FileWrite(file) => Some(FileFacts {
            source_event_type: "file_write"@,
            timestamp_ns: file.timestamp_ns,
            pid: file.pid,
            tid: file.tid,
            ppid: file.ppid,
            uid: file.uid,
            gid: file.gid,
            comm: file.comm@,
            exe_path: file.exe_path@,
            operation: "file_write"@,
            paths: seq![file.resolved_path@],
        }),
        NormalizedEvent::FileWriteV(file) => Some(FileFacts {
            source_event_type: "file_writev"@,
            timestamp_ns: file.timestamp_ns,
            pid: file.pid,
            tid: file.tid,
            ppid: file.ppid,
            uid: file.uid,
            gid: file.gid,
            comm: file.comm@,
            exe_path: file.exe_path@,
            operation: "file_write"@,
            paths: seq![file.resolved_path@],
        }),
        NormalizedEvent::FilePWrite64(file) => Some(FileFacts {
            source_event_type: "file_pwrite64"@,
            timestamp_ns: file.timestamp_ns,
            pid: file.pid,
            tid: file.tid,
            ppid: file.ppid,
            uid: file.uid,
            gid: file.gid,
            comm: file.comm@,
            exe_path: file.exe_path@,
            operation: "file_write"@,
            paths: seq![file.resolved_path@],
        }),
        NormalizedEvent::FileRename(file) => Some(FileFacts {
            source_event_type: "file_rename"@,
            timestamp_ns: file.timestamp_ns,
            pid: file.pid,
            tid: file.tid,
            ppid: file.ppid,
            uid: file.uid,
            gid: file.gid,
            comm: file.comm@,
            exe_path: file.exe_path@,
            operation: "file_rename"@,
            paths: seq![file.old_filename@, file.new_filename@],
        }),
        NormalizedEvent::FileRenameAt(file) => Some(FileFacts {
            source_event_type: "file_renameat"@,
            timestamp_ns: file.timestamp_ns,
            pid: file.pid,
            tid: file.tid,
            ppid: file.ppid,
            uid: file.uid,
            gid: file.gid,
            comm: file.comm@,
            exe_path: file.exe_path@,
            operation: "file_rename"@,
            paths: seq![file.old_filename@, file.new_filename@],
        }),
        NormalizedEvent::FileRenameAt2(file) => Some(FileFacts {
            source_event_type: "file_renameat2"@,
            timestamp_ns: file.timestamp_ns,
            pid: file.pid,
            tid: file.tid,
            ppid: file.ppid,
            uid: file.uid,
            gid: file.gid,
            comm: file.comm@,
            exe_path: file.exe_path@,
            operation: "file_rename"@,
            paths: seq![file.old_filename@, file.new_filename@],
        }),
        NormalizedEvent::FileUnlink(file) => Some(FileFacts {
            source_event_type: "file_unlink"@,
            timestamp_ns: file.timestamp_ns,
            pid: file.pid,
            tid: file.tid,
            ppid: file.ppid,
            uid: file.uid,
            gid: file.gid,
            comm: file.comm@,
            exe_path: file.exe_path@,
            operation: "file_unlink"@,
            paths: seq![file.filename@],
        }),
        NormalizedEvent::FileUnlinkAt(file) => Some(FileFacts {
            source_event_type: "file_unlinkat"@,
            timestamp_ns: file.timestamp_ns,
            pid: file.pid,
            tid: file.tid,
            ppid: file.ppid,
            uid: file.uid,
            gid: file.gid,
            comm: file.comm@,
            exe_path: file.exe_path@,
            operation: "file_unlink"@,
            paths: seq![file.filename@],
        }),
        _ => None,
    }
}

/// What network rules see of a normalized event; `None` for events that are not network events.
pub open spec fn network_event_facts(e: NormalizedEvent) -> Option<NetworkFacts> {
    match e {
        NormalizedEvent::NetworkConnect(net) => Some(NetworkFacts {
            source_event_type: "network_connect"@,
            timestamp_ns: net.timestamp_ns,
            pid: net.pid,
            tid: net.tid,
            ppid: net.ppid,
            uid: net.uid,
            gid: net.gid,
            comm: net.comm@,
            exe_path: net.exe_path@,
            family: net.family@,
            direction: NetworkDirection::Outbound,
            port: net.remote_port,
            addr: net.remote_addr@,
        }),
        NormalizedEvent::NetworkBind(net) => Some(NetworkFacts {
            source_event_type: "network_bind"@,
            timestamp_ns: net.timestamp_ns,
            pid: net.pid,
            tid: net.tid,
            ppid: net.ppid,
            uid: net.uid,
            gid: net.gid,
            comm: net.comm@,
            exe_path: net.exe_path@,
            family: net.family@,
            direction: NetworkDirection::Inbound,
            port: net.local_port,
            addr: net.local_addr@,
        }),
        NormalizedEvent::NetworkListen(net) => Some(NetworkFacts {
            source_event_type: "network_listen"@,
            timestamp_ns: net.timestamp_ns,
            pid: net.pid,
            tid: net.tid,
            ppid: net.ppid,
            uid: net.uid,
            gid: net.gid,
            comm: net.comm@,
            exe_path: net.exe_path@,
            family: net.family@,
            direction: NetworkDirection::Inbound,
            port: net.local_port,
            addr: net.local_addr@,
        }),
        _ => None,
    }
}

impl<'a> FileFields<'a> {
    /// The rule view of a `FileOpen` event.
    pub fn from_open(file: &'a FileOpen) -> (f: Self)
        ensures
            file_event_facts(NormalizedEvent::FileOpen(*file)) == Some(f.facts()),
    {
        let mut paths: Vec<&'a str> = Vec::new();
        paths.push(file.filename.as_str());
        let f = FileFields {
            source_event_type: "file_open",
            timestamp_ns: file.timestamp_ns,
            pid: file.pid,
            tid: file.tid,
            ppid: file.ppid,
            uid: file.uid,
            gid: file.gid,
            comm: file.comm.as_str(),
            exe_path: file.exe_path.as_str(),
            operation: "file_open",
            paths,
        };
        assert(f.facts().paths =~= seq![file.filename@]);
        f
    }

    /// The rule view of a `FileOpenAt2` event.
    pub fn from_openat2(file: &'a FileOpenAt2) -> (f: Self)
        ensures
            file_event_facts(NormalizedEvent::FileOpenAt2(*file)) == Some(f.facts()),
    {
        let mut paths: Vec<&'a str> = Vec::new();
        paths.push(file.filename.as_str());
        let f = FileFields {
            source_event_type: "file_openat2",
            timestamp_ns: file.timestamp_ns,
            pid: file.pid,
            tid: file.tid,
            ppid: file.ppid,
            uid: file.uid,
            gid: file.gid,
            comm: file.comm.as_str(),
            exe_path: file.exe_path.as_str(),
            operation: "file_open",
            paths,
        };
        assert(f.facts().paths =~= seq![file.filename@]);
        f
    }

    /// The rule view of a `FileWrite` event.
    pub fn from_write(file: &'a FileWrite) -> (f: Self)
        ensures
            file_event_facts(NormalizedEvent::FileWrite(*file)) == Some(f.facts()),
    {
        let mut paths: Vec<&'a str> = Vec::new();
        paths.push(file.resolved_path.as_str());
        let f = FileFields {
            source_event_type: "file_write",
            timestamp_ns: file.timestamp_ns,
            pid: file.pid,
            tid: file.tid,
            ppid: file.ppid,
            uid: file.uid,
            gid: file.gid,
            comm: file.comm.as_str(),
            exe_path: file.exe_path.as_str(),
            operation: "file_write",
            paths,
        };
        assert(f.facts().paths =~= seq![file.resolved_path@]);
        f
    }

    /// The rule view of a `FileWriteV` event.
    pub fn from_writev(file: &'a FileWriteV) -> (f: Self)
        ensures
            file_event_facts(NormalizedEvent::FileWriteV(*file)) == Some(f.facts()),
    {
        let mut paths: Vec<&'a str> = Vec::new();
        paths.push(file.resolved_path.as_str());
        let f = FileFields {
            source_event_type: "file_writev",
            timestamp_ns: file.timestamp_ns,
            pid: file.pid,
            tid: file.tid,
            ppid: file.ppid,
            uid: file.uid,
            gid: file.gid,
            comm: file.comm.as_str(),
            exe_path: file.exe_path.as_str(),
            operation: "file_write",
            paths,
        };
        assert(f.facts().paths =~= seq![file.resolved_path@]);
        f
    }

    /// The rule view of a `FilePWrite64` event.
    pub fn from_pwrite64(file: &'a FilePWrite64) -> (f: Self)
        ensures
            file_event_facts(NormalizedEvent::FilePWrite64(*file)) == Some(f.facts()),
    {
        let mut paths: Vec<&'a str> = Vec::new();
        paths.push(file.resolved_path.as_str());
        let f = FileFields {
            source_event_type: "file_pwrite64",
            timestamp_ns: file.timestamp_ns,
            pid: file.pid,
            tid: file.tid,
            ppid: file.ppid,
            uid: file.uid,
            gid: file.gid,
            comm: file.comm.as_str(),
            exe_path: file.exe_path.as_str(),
            operation: "file_write",
            paths,
        };
        assert(f.facts().paths =~= seq![file.resolved_path@]);
        f
    }

    /// The rule view of a `FileRename` event.
    pub fn from_rename(file: &'a FileRename) -> (f: Self)
        ensures
            file_event_facts(NormalizedEvent::FileRename(*file)) == Some(f.facts()),
    {
        let mut paths: Vec<&'a str> = Vec::new();
        paths.push(file.old_filename.as_str());
        paths.push(file.new_filename.as_str());
        let f = FileFields {
            source_event_type: "file_rename",
            timestamp_ns: file.timestamp_ns,
            pid: file.pid,
            tid: file.tid,
            ppid: file.ppid,
            uid: file.uid,
            gid: file.gid,
            comm: file.comm.as_str(),
            exe_path: file.exe_path.as_str(),
            operation: "file_rename",
            paths,
        };
        assert(f.facts().paths =~= seq![file.old_filename@, file.new_filename@]);
        f
    }

    /// The rule view of a `FileRenameAt` event.
    pub fn from_renameat(file: &'a FileRenameAt) -> (f: Self)
        ensures
            file_event_facts(NormalizedEvent::FileRenameAt(*file)) == Some(f.facts()),
    {
        let mut paths: Vec<&'a str> = Vec::new();
        paths.push(file.old_filename.as_str());
        paths.push(file.new_filename.as_str());
        let f = FileFields {
            source_event_type: "file_renameat",
            timestamp_ns: file.timestamp_ns,
            pid: file.pid,
            tid: file.tid,
            ppid: file.ppid,
            uid: file.uid,
            gid: file.gid,
            comm: file.comm.as_str(),
            exe_path: file.exe_path.as_str(),
            operation: "file_rename",
            paths,
        };
        assert(f.facts().paths =~= seq![file.old_filename@, file.new_filename@]);
        f
    }

    /// The rule view of a `FileRenameAt2` event.
    pub fn from_renameat2(file: &'a FileRenameAt2) -> (f: Self)
        ensures
            file_event_facts(NormalizedEvent::FileRenameAt2(*file)) == Some(f.facts()),
    {
        let mut paths: Vec<&'a str> = Vec::new();
        paths.push(file.old_filename.as_str());
        paths.push(file.new_filename.as_str());
        let f = FileFields {
            source_event_type: "file_renameat2",
            timestamp_ns: file.timestamp_ns,
            pid: file.pid,
            tid: file.tid,
            ppid: file.ppid,
            uid: file.uid,
            gid: file.gid,
            comm: file.comm.as_str(),
            exe_path: file.exe_path.as_str(),
            operation: "file_rename",
            paths,
        };
        assert(f.facts().paths =~= seq![file.old_filename@, file.new_filename@]);
        f
    }

    /// The rule view of a `FileUnlink` event.
    pub fn from_unlink(file: &'a FileUnlink) -> (f: Self)
        ensures
            file_event_facts(NormalizedEvent::FileUnlink(*file)) == Some(f.facts()),
    {
        let mut paths: Vec<&'a str> = Vec::new();
        paths.push(file.filename.as_str());
        let f = FileFields {
            source_event_type: "file_unlink",
            timestamp_ns: file.timestamp_ns,
            pid: file.pid,
            tid: file.tid,
            ppid: file.ppid,
            uid: file.uid,
            gid: file.gid,
            comm: file.comm.as_str(),
            exe_path: file.exe_path.as_str(),
            operation: "file_unlink",
            paths,
        };
        assert(f.facts().paths =~= seq![file.filename@]);
        f
    }

    /// The rule view of a `FileUnlinkAt` event.
    pub fn from_unlinkat(file: &'a FileUnlinkAt) -> (f: Self)
        ensures
            file_event_facts(NormalizedEvent::FileUnlinkAt(*file)) == Some(f.facts()),
    {
        let mut paths: Vec<&'a str> = Vec::new();
        paths.push(file.filename.as_str());
        let f = FileFields {
            source_event_type: "file_unlinkat",
            timestamp_ns: file.timestamp_ns,
            pid: file.pid,
            tid: file.tid,
            ppid: file.ppid,
            uid: file.uid,
            gid: file.gid,
            comm: file.comm.as_str(),
            exe_path: file.exe_path.as_str(),
            operation: "file_unlink",
            paths,
        };
        assert(f.facts().paths =~= seq![file.filename@]);
        f
    }
}

impl<'a> NetworkFields<'a> {
    /// The rule view of a `NetworkConnect` event.
    pub fn from_connect(net: &'a NetworkConnect) -> (f: Self)
        ensures
            network_event_facts(NormalizedEvent::NetworkConnect(*net)) == Some(f.facts()),
    {
        NetworkFields {
            source_event_type: "network_connect",
            timestamp_ns: net.timestamp_ns,
            pid: net.pid,
            tid: net.tid,
            ppid: net.ppid,
            uid: net.uid,
            gid: net.gid,
            comm: net.comm.as_str(),
            exe_path: net.exe_path.as_str(),
            family: net.family.as_str(),
            direction: NetworkDirection::Outbound,
            port: net.remote_port,
            addr: net.remote_addr.as_str(),
        }
    }

    /// The rule view of a `NetworkBind` event.
    pub fn from_bind(net: &'a NetworkBind) -> (f: Self)
        ensures
            network_event_facts(NormalizedEvent::NetworkBind(*net)) == Some(f.facts()),
    {
        NetworkFields {
            source_event_type: "network_bind",
            timestamp_ns: net.timestamp_ns,
            pid: net.pid,
            tid: net.tid,
            ppid: net.ppid,
            uid: net.uid,
            gid: net.gid,
            comm: net.comm.as_str(),
            exe_path: net.exe_path.as_str(),
            family: net.family.as_str(),
            direction: NetworkDirection::Inbound,
            port: net.local_port,
            addr: net.local_addr.as_str(),
        }
    }

    /// The rule view of a `NetworkListen` event.
    pub fn from_listen(net: &'a NetworkListen) -> (f: Self)
        ensures
            network_event_facts(NormalizedEvent::NetworkListen(*net)) == Some(f.facts()),
    {
        NetworkFields {
            source_event_type: "network_listen",
            timestamp_ns: net.timestamp_ns,
            pid: net.pid,
            tid: net.tid,
            ppid: net.ppid,
            uid: net.uid,
            gid: net.gid,
            comm: net.comm.as_str(),
            exe_path: net.exe_path.as_str(),
            family: net.family.as_str(),
            direction: NetworkDirection::Inbound,
            port: net.local_port,
            addr: net.local_addr.as_str(),
        }
    }
}

} // verus!
