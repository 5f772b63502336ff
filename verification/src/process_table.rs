//! The userspace process table: one enrichment record per `(pid, tid)`
//! observed by the probes, plus exec sources that arrived before their
//! process was known.
use std::collections::HashMap;
use vstd::prelude::*;
use crate::abi::{ExecSyscallEvent, ProcessExecEvent, ProcessExitEvent, ProcessForkEvent};
use crate::text::{fixed_string, owned};
use crate::text;

verus! {

broadcast use vstd::std_specs::hash::group_hash_axioms;

/// In-memory enrichment record for a single `(pid, tid)`.
#[derive(Clone, Debug, PartialEq, Eq)]
pub struct ProcessRecord {
    pub pid: u32,
    pub tid: u32,
    pub ppid: u32,
    pub uid: u32,
    pub gid: u32,
    pub comm: String,
    pub exe_path: String,
    pub first_seen: u64,
    pub last_seen: u64,
    pub exit_timestamp: Option<u64>,
    pub exited: bool,
    /// The raw exec syscall (`execve`/`execveat`) waiting to be reported by
    /// the next exec event of this process.
    pub pending_source: Option<String>,
}

fn copy_opt_string(s: &Option<String>) -> (r: Option<String>)
    ensures
        r == *s,
{
    match s {
        Some(v) => Some(v.clone()),
        None => None,
    }
}

impl ProcessRecord {
    /// A field-for-field copy of the record.
    pub fn duplicate(&self) -> (r: ProcessRecord)
        ensures
            r == *self,
    {
        ProcessRecord {
            pid: self.pid,
            tid: self.tid,
            ppid: self.ppid,
            uid: self.uid,
            gid: self.gid,
            comm: self.comm.clone(),
            exe_path: self.exe_path.clone(),
            first_seen: self.first_seen,
            last_seen: self.last_seen,
            exit_timestamp: self.exit_timestamp,
            exited: self.exited,
            pending_source: copy_opt_string(&self.pending_source),
        }
    }
}

/// The key under which the record of `(pid, tid)` is stored: the pid in the
/// high 32 bits, the tid in the low 32 bits.
pub open spec fn table_key(pid: u32, tid: u32) -> u64 {
    (pid as int * 0x1_0000_0000 + tid as int) as u64
}

/// Distinct `(pid, tid)` pairs have distinct keys.
pub proof fn lemma_table_key_injective(pid1: u32, tid1: u32, pid2: u32, tid2: u32)
    ensures
        table_key(pid1, tid1) == table_key(pid2, tid2) <==> (pid1 == pid2 && tid1 == tid2),
{
    assert(pid1 as int * 0x1_0000_0000 + tid1 as int <= u64::MAX);
    assert(pid2 as int * 0x1_0000_0000 + tid2 as int <= u64::MAX);
    if table_key(pid1, tid1) == table_key(pid2, tid2) {
        assert(pid1 as int * 0x1_0000_0000 + tid1 as int == pid2 as int * 0x1_0000_0000
            + tid2 as int);
        if pid1 < pid2 {
            assert(pid1 as int * 0x1_0000_0000 + 0x1_0000_0000 <= pid2 as int * 0x1_0000_0000);
        } else if pid2 < pid1 {
            assert(pid2 as int * 0x1_0000_0000 + 0x1_0000_0000 <= pid1 as int * 0x1_0000_0000);
        }
    }
}

/// The key under which the record of `(pid, tid)` is stored.
pub fn key_of(pid: u32, tid: u32) -> (k: u64)
    ensures
        k == table_key(pid, tid),
{
    (pid as u64) * 0x1_0000_0000u64 + (tid as u64)
}

/// The name of an exec syscall source by its wire value.
pub open spec fn source_name(code: u8) -> Seq<char> {
    if code == 1 {
        "execve"@
    } else if code == 2 {
        "execveat"@
    } else {
        "unknown"@
    }
}

/// The pending source that an exec of `key` picks up: the one already on its
/// record, else the one waiting for the process to become known.
pub open spec fn picked_source(
    records: Map<u64, ProcessRecord>,
    pending: Map<u64, String>,
    key: u64,
) -> Option<String> {
    if records.contains_key(key) && records[key].pending_source is Some {
        records[key].pending_source
    } else if pending.contains_key(key) {
        Some(pending[key])
    } else {
        None
    }
}

/// The waiting sources after an exec of `key`: a source already on the
/// record leaves the waiting one in place; otherwise the waiting one is taken.
pub open spec fn exec_pending(
    records: Map<u64, ProcessRecord>,
    pending: Map<u64, String>,
    key: u64,
) -> Map<u64, String> {
    if records.contains_key(key) && records[key].pending_source is Some {
        pending
    } else {
        pending.remove(key)
    }
}

/// The record that an exec event produces, given the tables before it.
pub open spec fn exec_record(
    records: Map<u64, ProcessRecord>,
    pending: Map<u64, String>,
    event: ProcessExecEvent,
    comm: String,
    exe_path: String,
) -> ProcessRecord {
    let key = table_key(event.header.pid, event.header.tid);
    let known = records.contains_key(key);
    ProcessRecord {
        pid: event.header.pid,
        tid: event.header.tid,
        ppid: if known { records[key].ppid } else { event.header.ppid },
        uid: event.header.uid,
        gid: event.header.gid,
        comm,
        exe_path,
        first_seen: if known { records[key].first_seen } else { event.header.timestamp_ns },
        last_seen: event.header.timestamp_ns,
        exit_timestamp: None,
        exited: false,
        pending_source: picked_source(records, pending, key),
    }
}

/// The child record that a fork event produces.
pub open spec fn fork_record(event: ProcessForkEvent, comm: String, exe_path: String) -> ProcessRecord {
    ProcessRecord {
        pid: event.child_pid,
        tid: event.child_tid,
        ppid: event.parent_pid,
        uid: event.header.uid,
        gid: event.header.gid,
        comm,
        exe_path,
        first_seen: event.header.timestamp_ns,
        last_seen: event.header.timestamp_ns,
        exit_timestamp: None,
        exited: false,
        pending_source: None,
    }
}

/// The records after an exec source `source` arrives for `key`: a known
/// record carries it.
pub open spec fn sourced_records(
    records: Map<u64, ProcessRecord>,
    key: u64,
    source: String,
) -> Map<u64, ProcessRecord> {
    if records.contains_key(key) {
        records.insert(key, ProcessRecord { pending_source: Some(source), ..records[key] })
    } else {
        records
    }
}

/// The waiting sources after an exec source `source` arrives for `key`: it
/// waits there when the process is not known yet.
pub open spec fn sourced_pending(
    records: Map<u64, ProcessRecord>,
    pending: Map<u64, String>,
    key: u64,
    source: String,
) -> Map<u64, String> {
    if records.contains_key(key) {
        pending
    } else {
        pending.insert(key, source)
    }
}

/// A record as an exit event leaves it.
pub open spec fn exited_record(r: ProcessRecord, timestamp: u64) -> ProcessRecord {
    ProcessRecord { last_seen: timestamp, exit_timestamp: Some(timestamp), exited: true, ..r }
}

/// Simple userspace process table keyed by `(pid, tid)`.
pub struct ProcessTable {
    records: HashMap<u64, ProcessRecord>,
    pending_exec_sources: HashMap<u64, String>,
}

impl ProcessTable {
    /// The known records, by `table_key` of their `(pid, tid)`.
    pub closed spec fn records(&self) -> Map<u64, ProcessRecord> {
        self.records@
    }

    /// Exec sources waiting for their process, by `table_key`.
    pub closed spec fn pending_sources(&self) -> Map<u64, String> {
        self.pending_exec_sources@
    }

    /// Every record is stored under the key of its own `(pid, tid)`, and
    /// the table holds finitely many records and waiting sources.
    pub open spec fn wf(&self) -> bool {
        &&& forall|k: u64| #[trigger]
            self.records().contains_key(k) ==> table_key(self.records()[k].pid, self.records()[k].tid)
                == k
        &&& self.records().dom().finite()
        &&& self.pending_sources().dom().finite()
    }

    pub fn new() -> (t: Self)
        ensures
            t.wf(),
            t.records() == Map::<u64, ProcessRecord>::empty(),
            t.pending_sources() == Map::<u64, String>::empty(),
    {
        ProcessTable { records: HashMap::new(), pending_exec_sources: HashMap::new() }
    }

    /// Insert or update a record from a process exec event.
    ///
    /// A record already known (from a fork, say) keeps its `ppid` and
    /// `first_seen`.  The pending source is handed out in the result and
    /// cleared in the table.
    pub fn update_from_exec(&mut self, event: &ProcessExecEvent) -> (r: ProcessRecord)
        requires
            old(self).wf(),
        ensures
            final(self).wf(),
            r.comm@ == text::fixed_text(event.comm@),
            r.exe_path@ == text::fixed_text(event.filename@),
            r == exec_record(
                old(self).records(),
                old(self).pending_sources(),
                *event,
                r.comm,
                r.exe_path,
            ),
            final(self).records() == old(self).records().insert(
                table_key(event.header.pid, event.header.tid),
                ProcessRecord { pending_source: None, ..r },
            ),
            final(self).pending_sources() == exec_pending(
                old(self).records(),
                old(self).pending_sources(),
                table_key(event.header.pid, event.header.tid),
            ),
    {
        let key = key_of(event.header.pid, event.header.tid);
        let comm = fixed_string(&event.comm, 16);
        let filename = fixed_string(&event.filename, 256);
        assert(event.comm@.take(16) =~= event.comm@);
        assert(event.filename@.take(256) =~= event.filename@);
        let ghost old_records = self.records@;
        let ghost old_pending = self.pending_exec_sources@;
        let record = match self.records.remove(&key) {
            Some(existing) => {
                let pending_source = if existing.pending_source.is_none() {
                    self.pending_exec_sources.remove(&key)
                } else {
                    existing.pending_source
                };
                ProcessRecord {
                    pid: event.header.pid,
                    tid: event.header.tid,
                    ppid: existing.ppid,
                    uid: event.header.uid,
                    gid: event.header.gid,
                    comm,
                    exe_path: filename,
                    first_seen: existing.first_seen,
                    last_seen: event.header.timestamp_ns,
                    exit_timestamp: None,
                    exited: false,
                    pending_source,
                }
            },
            None => {
                let pending_source = self.pending_exec_sources.remove(&key);
                ProcessRecord {
                    pid: event.header.pid,
                    tid: event.header.tid,
                    ppid: event.header.ppid,
                    uid: event.header.uid,
                    gid: event.header.gid,
                    comm,
                    exe_path: filename,
                    first_seen: event.header.timestamp_ns,
                    last_seen: event.header.timestamp_ns,
                    exit_timestamp: None,
                    exited: false,
                    pending_source,
                }
            },
        };
        let result = record.duplicate();
        let stored = ProcessRecord { pending_source: None, ..record };
        self.records.insert(key, stored);
        proof {
            assert forall|k: u64| #[trigger] self.records@.contains_key(k) implies table_key(
                self.records@[k].pid,
                self.records@[k].tid,
            ) == k by {
                if k != key {
                    assert(old_records.contains_key(k));
                }
            }
        }
        result
    }

    /// Insert a child record from a process fork event, keyed by the
    /// child's `(pid, tid)`, with the parent's pid as `ppid`.
    pub fn insert_from_fork(&mut self, event: &ProcessForkEvent) -> (r: ProcessRecord)
        requires
            old(self).wf(),
        ensures
            final(self).wf(),
            r.comm@ == text::fixed_text(event.child_comm@),
            r.exe_path@ == Seq::<char>::empty(),
            r == fork_record(*event, r.comm, r.exe_path),
            final(self).records() == old(self).records().insert(
                table_key(event.child_pid, event.child_tid),
                r,
            ),
            final(self).pending_sources() == old(self).pending_sources(),
    {
        let key = key_of(event.child_pid, event.child_tid);
        let child_comm = fixed_string(&event.child_comm, 16);
        assert(event.child_comm@.take(16) =~= event.child_comm@);
        let ghost old_records = self.records@;
        let record = ProcessRecord {
            pid: event.child_pid,
            tid: event.child_tid,
            ppid: event.parent_pid,
            uid: event.header.uid,
            gid: event.header.gid,
            comm: child_comm,
            exe_path: String::new(),
            first_seen: event.header.timestamp_ns,
            last_seen: event.header.timestamp_ns,
            exit_timestamp: None,
            exited: false,
            pending_source: None,
        };
        let result = record.duplicate();
        self.records.insert(key, record);
        proof {
            assert forall|k: u64| #[trigger] self.records@.contains_key(k) implies table_key(
                self.records@[k].pid,
                self.records@[k].tid,
            ) == k by {
                if k != key {
                    assert(old_records.contains_key(k));
                }
            }
        }
        result
    }

    /// Mark a process as exited: its record leaves the table and comes back
    /// marked, or `None` for a process that was never seen.  A source still
    /// waiting for it is dropped.
    pub fn mark_exit(&mut self, event: &ProcessExitEvent) -> (r: Option<ProcessRecord>)
        requires
            old(self).wf(),
        ensures
            final(self).wf(),
            ({
                let key = table_key(event.header.pid, event.header.tid);
                &&& r == (if old(self).records().contains_key(key) {
                    Some(exited_record(old(self).records()[key], event.header.timestamp_ns))
                } else {
                    None::<ProcessRecord>
                })
                &&& final(self).records() == old(self).records().remove(key)
                &&& final(self).pending_sources() == old(self).pending_sources().remove(key)
            }),
    {
        let key = key_of(event.header.pid, event.header.tid);
        let ghost old_records = self.records@;
        let _dropped = self.pending_exec_sources.remove(&key);
        let removed = self.records.remove(&key);
        proof {
            assert forall|k: u64| #[trigger] self.records@.contains_key(k) implies table_key(
                self.records@[k].pid,
                self.records@[k].tid,
            ) == k by {
                assert(old_records.contains_key(k));
            }
        }
        match removed {
            Some(record) => {
                let ts = event.header.timestamp_ns;
                Some(
                    ProcessRecord {
                        last_seen: ts,
                        exit_timestamp: Some(ts),
                        exited: true,
                        ..record
                    },
                )
            },
            None => None,
        }
    }

    /// Remember the exec syscall source of an event: on the record of its
    /// process when that is known, else until the process becomes known.
    pub fn set_pending_source(&mut self, event: &ExecSyscallEvent)
        requires
            old(self).wf(),
        ensures
            final(self).wf(),
            ({
                let key = table_key(event.header.pid, event.header.tid);
                let stored = if old(self).records().contains_key(key) {
                    final(self).records()[key].pending_source->0
                } else {
                    final(self).pending_sources()[key]
                };
                &&& stored@ == source_name(event.source)
                &&& final(self).records() == sourced_records(old(self).records(), key, stored)
                &&& final(self).pending_sources() == sourced_pending(
                    old(self).records(),
                    old(self).pending_sources(),
                    key,
                    stored,
                )
            }),
    {
        let key = key_of(event.header.pid, event.header.tid);
        let source = if event.source == 1 {
            owned("execve")
        } else if event.source == 2 {
            owned("execveat")
        } else {
            owned("unknown")
        };
        proof {
            reveal_strlit("execve");
            reveal_strlit("execveat");
            reveal_strlit("unknown");
        }
        let ghost old_records = self.records@;
        match self.records.remove(&key) {
            Some(record) => {
                let updated = ProcessRecord { pending_source: Some(source), ..record };
                self.records.insert(key, updated);
                assert(self.records@ =~= old_records.insert(key, updated));
            },
            None => {
                self.pending_exec_sources.insert(key, source);
            },
        }
        proof {
            assert forall|k: u64| #[trigger] self.records@.contains_key(k) implies table_key(
                self.records@[k].pid,
                self.records@[k].tid,
            ) == k by {
                assert(old_records.contains_key(k));
            }
        }
    }

    /// The record of `(pid, tid)`, if known.
    pub fn get(&self, key: &(u32, u32)) -> (r: Option<&ProcessRecord>)
        ensures
            ({
                let k = table_key(key.0, key.1);
                match r {
                    Some(rec) => self.records().contains_key(k) && *rec == self.records()[k],
                    None => !self.records().contains_key(k),
                }
            }),
    {
        let k = key_of(key.0, key.1);
        self.records.get(&k)
    }

    /// The number of known records.
    pub fn record_count(&self) -> (n: usize)
        ensures
            n == self.records().len(),
    {
        self.records.len()
    }

    /// The number of exec sources waiting for their process.
    pub fn pending_exec_source_count(&self) -> (n: usize)
        ensures
            n == self.pending_sources().len(),
    {
        self.pending_exec_sources.len()
    }
}

/// The counts follow the maps: storing a record or a source under a new key
/// adds one, under a known key keeps the count; removing a known key takes
/// one away, an unknown key changes nothing.
pub proof fn law_counts_follow_the_maps(
    records: Map<u64, ProcessRecord>,
    pending: Map<u64, String>,
    key: u64,
    record: ProcessRecord,
    source: String,
)
    requires
        records.dom().finite(),
        pending.dom().finite(),
    ensures
        records.insert(key, record).len() == records.len() + if records.contains_key(key) { 0int } else { 1int },
        records.remove(key).len() == records.len() - if records.contains_key(key) { 1int } else { 0int },
        pending.insert(key, source).len() == pending.len() + if pending.contains_key(key) { 0int } else { 1int },
        pending.remove(key).len() == pending.len() - if pending.contains_key(key) { 1int } else { 0int },
{
    if !records.contains_key(key) {
        assert(records.remove(key) =~= records);
    }
    if !pending.contains_key(key) {
        assert(pending.remove(key) =~= pending);
    }
}

/// An exec that follows a fork of the same `(pid, tid)` keeps the parent
/// and the first-seen time that the fork recorded, whatever the exec event
/// itself says of its parent.
pub proof fn law_exec_after_fork_keeps_lineage(
    records: Map<u64, ProcessRecord>,
    pending: Map<u64, String>,
    fork: ProcessForkEvent,
    child_comm: String,
    empty_path: String,
    exec: ProcessExecEvent,
    comm: String,
    exe_path: String,
)
    requires
        exec.header.pid == fork.child_pid,
        exec.header.tid == fork.child_tid,
    ensures
        ({
            let after_fork = records.insert(
                table_key(fork.child_pid, fork.child_tid),
                fork_record(fork, child_comm, empty_path),
            );
            let r = exec_record(after_fork, pending, exec, comm, exe_path);
            &&& r.ppid == fork.parent_pid
            &&& r.first_seen == fork.header.timestamp_ns
            &&& r.last_seen == exec.header.timestamp_ns
            &&& r.pid == fork.child_pid
        }),
{
}

/// An exec source reported for a process reaches the next exec of that
/// process, whether or not the process was known when the source arrived.
pub proof fn law_source_reaches_next_exec(
    records: Map<u64, ProcessRecord>,
    pending: Map<u64, String>,
    source: String,
    exec: ProcessExecEvent,
    comm: String,
    exe_path: String,
)
    ensures
        ({
            let key = table_key(exec.header.pid, exec.header.tid);
            let r2 = sourced_records(records, key, source);
            let p2 = sourced_pending(records, pending, key, source);
            exec_record(r2, p2, exec, comm, exe_path).pending_source == Some(source)
        }),
{
}

/// After an exec hands out the pending source, the table keeps none for that
/// process: the next exec without a new source reports none.  (Left out: a
/// process whose record already carried a source while another one was
/// also waiting for it; the waiting one then stays.)
pub proof fn law_exec_consumes_source(
    records: Map<u64, ProcessRecord>,
    pending: Map<u64, String>,
    first: ProcessExecEvent,
    second: ProcessExecEvent,
    comm: String,
    exe_path: String,
    comm2: String,
    exe_path2: String,
)
    requires
        second.header.pid == first.header.pid,
        second.header.tid == first.header.tid,
        ({
            let key = table_key(first.header.pid, first.header.tid);
            !(records.contains_key(key) && records[key].pending_source is Some
                && pending.contains_key(key))
        }),
    ensures
        ({
            let key = table_key(first.header.pid, first.header.tid);
            let r = exec_record(records, pending, first, comm, exe_path);
            let r2 = records.insert(key, ProcessRecord { pending_source: None, ..r });
            let p2 = exec_pending(records, pending, key);
            exec_record(r2, p2, second, comm2, exe_path2).pending_source == None::<String>
        }),
{
}

/// An exit forgets the process: its record and any source waiting for it
/// are gone, and a second exit of it finds nothing.
pub proof fn law_exit_forgets(
    records: Map<u64, ProcessRecord>,
    pending: Map<u64, String>,
    pid: u32,
    tid: u32,
)
    ensures
        ({
            let key = table_key(pid, tid);
            &&& !records.remove(key).contains_key(key)
            &&& !pending.remove(key).contains_key(key)
        }),
{
}

} // verus!
