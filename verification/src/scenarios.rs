//! Behaviour scenarios that span several events: a shell or scripting
//! process that connects out to a well-known reverse-shell port soon after
//! it started.
use std::collections::HashMap;
use vstd::prelude::*;
use crate::normalize::{NetworkConnect, NormalizedEvent, ProcessStart};
use crate::process_table::table_key;
use crate::process_table;
use crate::rules::alerts::{Alert, AlertView};
use crate::text::{owned, text_eq};

verus! {

broadcast use vstd::std_specs::hash::group_hash_axioms;

/// How long, in nanoseconds, a started process stays a candidate.
pub const SCENARIO_WINDOW_NS: u64 = 10_000_000_000;

/// The ports that reverse shells are known to call back on.
pub open spec fn reverse_shell_port(port: u16) -> bool {
    port == 4444 || port == 1337 || port == 31337 || port == 9001 || port == 5555
}

/// The process names that a reverse shell runs as.
pub open spec fn reverse_shell_name(comm: Seq<char>) -> bool {
    ||| comm == "sh"@
    ||| comm == "bash"@
    ||| comm == "dash"@
    ||| comm == "zsh"@
    ||| comm == "ksh"@
    ||| comm == "mksh"@
    ||| comm == "busybox"@
    ||| comm == "nc"@
    ||| comm == "ncat"@
    ||| comm == "socat"@
    ||| comm == "python"@
    ||| comm == "python3"@
    ||| comm == "perl"@
    ||| comm == "php"@
    ||| comm == "ruby"@
}

/// `now_ns` is no earlier than `start_ns` and at most the window after it.
pub open spec fn in_window(start_ns: u64, now_ns: u64) -> bool {
    now_ns >= start_ns && now_ns - start_ns <= SCENARIO_WINDOW_NS
}

/// What is kept of a candidate process.
#[derive(Clone, Debug)]
pub struct ProcessSnapshot {
    pub timestamp_ns: u64,
    pub ppid: u32,
    pub uid: u32,
    pub gid: u32,
    pub comm: String,
    pub exe_path: String,
}

/// The snapshot kept of a process start.
pub open spec fn snapshot_of(start: ProcessStart) -> ProcessSnapshot {
    ProcessSnapshot {
        timestamp_ns: start.timestamp_ns,
        ppid: start.ppid,
        uid: start.uid,
        gid: start.gid,
        comm: start.comm,
        exe_path: start.exe_path,
    }
}

impl ProcessSnapshot {
    /// The snapshot of a process start.
    pub fn from_start(start: &ProcessStart) -> (r: ProcessSnapshot)
        ensures
            r == snapshot_of(*start),
    {
        ProcessSnapshot {
            timestamp_ns: start.timestamp_ns,
            ppid: start.ppid,
            uid: start.uid,
            gid: start.gid,
            comm: start.comm.clone(),
            exe_path: start.exe_path.clone(),
        }
    }

    fn duplicate(&self) -> (r: ProcessSnapshot)
        ensures
            r == *self,
    {
        ProcessSnapshot {
            timestamp_ns: self.timestamp_ns,
            ppid: self.ppid,
            uid: self.uid,
            gid: self.gid,
            comm: self.comm.clone(),
            exe_path: self.exe_path.clone(),
        }
    }
}

/// The time an event happened.
pub open spec fn event_time(event: NormalizedEvent) -> u64 {
    match event {
        NormalizedEvent::ProcessStart(e) => e.timestamp_ns,
        NormalizedEvent::ProcessExit(e) => e.timestamp_ns,
        NormalizedEvent::ProcessRelationship(e) => e.timestamp_ns,
        NormalizedEvent::FileOpen(e) => e.timestamp_ns,
        NormalizedEvent::FileOpenAt2(e) => e.timestamp_ns,
        NormalizedEvent::FileWrite(e) => e.timestamp_ns,
        NormalizedEvent::FileWriteV(e) => e.timestamp_ns,
        NormalizedEvent::FilePWrite64(e) => e.timestamp_ns,
        NormalizedEvent::FileRename(e) => e.timestamp_ns,
        NormalizedEvent::FileRenameAt(e) => e.timestamp_ns,
        NormalizedEvent::FileRenameAt2(e) => e.timestamp_ns,
        NormalizedEvent::FileUnlink(e) => e.timestamp_ns,
        NormalizedEvent::FileUnlinkAt(e) => e.timestamp_ns,
        NormalizedEvent::NetworkConnect(e) => e.timestamp_ns,
        NormalizedEvent::NetworkBind(e) => e.timestamp_ns,
        NormalizedEvent::NetworkListen(e) => e.timestamp_ns,
    }
}

/// The time an event happened.
pub fn event_timestamp_ns(event: &NormalizedEvent) -> (r: u64)
    ensures
        r == event_time(*event),
{
    match event {
        NormalizedEvent::ProcessStart(e) => e.timestamp_ns,
        NormalizedEvent::ProcessExit(e) => e.timestamp_ns,
        NormalizedEvent::ProcessRelationship(e) => e.timestamp_ns,
        NormalizedEvent::FileOpen(e) => e.timestamp_ns,
        NormalizedEvent::FileOpenAt2(e) => e.timestamp_ns,
        NormalizedEvent::FileWrite(e) => e.timestamp_ns,
        NormalizedEvent::FileWriteV(e) => e.timestamp_ns,
        NormalizedEvent::FilePWrite64(e) => e.timestamp_ns,
        NormalizedEvent::FileRename(e) => e.timestamp_ns,
        NormalizedEvent::FileRenameAt(e) => e.timestamp_ns,
        NormalizedEvent::FileRenameAt2(e) => e.timestamp_ns,
        NormalizedEvent::FileUnlink(e) => e.timestamp_ns,
        NormalizedEvent::FileUnlinkAt(e) => e.timestamp_ns,
        NormalizedEvent::NetworkConnect(e) => e.timestamp_ns,
        NormalizedEvent::NetworkBind(e) => e.timestamp_ns,
        NormalizedEvent::NetworkListen(e) => e.timestamp_ns,
    }
}

/// Whether a process name is one that a reverse shell runs as.
pub fn is_reverse_shell_process(comm: &str) -> (r: bool)
    ensures
        r == reverse_shell_name(comm@),
{
    text_eq(comm, "sh") || text_eq(comm, "bash") || text_eq(comm, "dash") || text_eq(comm, "zsh")
        || text_eq(comm, "ksh") || text_eq(comm, "mksh") || text_eq(comm, "busybox") || text_eq(
        comm,
        "nc",
    ) || text_eq(comm, "ncat") || text_eq(comm, "socat") || text_eq(comm, "python") || text_eq(
        comm,
        "python3",
    ) || text_eq(comm, "perl") || text_eq(comm, "php") || text_eq(comm, "ruby")
}

/// Whether a port is one that reverse shells call back on.
pub fn is_reverse_shell_port(port: u16) -> (r: bool)
    ensures
        r == reverse_shell_port(port),
{
    port == 4444 || port == 1337 || port == 31337 || port == 9001 || port == 5555
}

/// Whether `now_ns` falls in the window that starts at `start_ns`.
pub fn within_window(start_ns: u64, now_ns: u64) -> (r: bool)
    ensures
        r == in_window(start_ns, now_ns),
{
    now_ns >= start_ns && now_ns - start_ns <= SCENARIO_WINDOW_NS
}

/// The candidates still in their window at `now_ns`.
pub open spec fn pruned(recent: Map<u64, ProcessSnapshot>, now_ns: u64) -> Map<u64, ProcessSnapshot> {
    Map::new(
        |k: u64| recent.contains_key(k) && in_window(recent[k].timestamp_ns, now_ns),
        |k: u64| recent[k],
    )
}

/// A connect completes the reverse-shell scenario: to a reverse-shell port,
/// by a candidate process, within its window.
pub open spec fn reverse_shell_fires(recent: Map<u64, ProcessSnapshot>, c: NetworkConnect) -> bool {
    let key = table_key(c.pid, c.tid);
    &&& reverse_shell_port(c.remote_port)
    &&& recent.contains_key(key)
    &&& in_window(recent[key].timestamp_ns, c.timestamp_ns)
}

/// The alert raised when the reverse-shell scenario completes.
pub open spec fn reverse_shell_view(p: ProcessSnapshot, c: NetworkConnect) -> AlertView {
    AlertView {
        timestamp_ns: c.timestamp_ns,
        rule_id: "BUILTIN-SCENARIO-REVERSE-SHELL-001"@,
        rule_name: "Reverse shell behavior"@,
        rule_type: "scenario"@,
        severity: "high"@,
        action: "alert"@,
        source_event_type: "network_connect"@,
        pid: Some(c.pid),
        tid: Some(c.tid),
        ppid: Some(p.ppid),
        uid: Some(p.uid),
        gid: Some(p.gid),
        comm: Some(p.comm@),
        exe_path: Some(p.exe_path@),
        process_name: Some(p.comm@),
        parent_name: None,
        path: None,
        operation: None,
        direction: Some("outbound"@),
        port: Some(c.remote_port),
        addr: Some(c.remote_addr@),
        family: Some(c.family@),
    }
}

/// The alert of a completed reverse-shell scenario.
pub fn reverse_shell_alert(process: &ProcessSnapshot, connect: &NetworkConnect) -> (a: Alert)
    ensures
        a@ == reverse_shell_view(*process, *connect),
{
    Alert {
        timestamp_ns: connect.timestamp_ns,
        rule_id: owned("BUILTIN-SCENARIO-REVERSE-SHELL-001"),
        rule_name: owned("Reverse shell behavior"),
        rule_type: owned("scenario"),
        severity: owned("high"),
        action: owned("alert"),
        source_event_type: owned("network_connect"),
        pid: Some(connect.pid),
        tid: Some(connect.tid),
        ppid: Some(process.ppid),
        uid: Some(process.uid),
        gid: Some(process.gid),
        comm: Some(process.comm.clone()),
        exe_path: Some(process.exe_path.clone()),
        process_name: Some(process.comm.clone()),
        parent_name: None,
        path: None,
        operation: None,
        direction: Some(owned("outbound")),
        port: Some(connect.remote_port),
        addr: Some(connect.remote_addr.clone()),
        family: Some(connect.family.clone()),
    }
}

/// Tracks recently started candidate processes and raises scenario alerts.
pub struct ScenarioEngine {
    recent_processes: HashMap<u64, ProcessSnapshot>,
}

/// The views of a list of alerts.
pub open spec fn views_of(alerts: Seq<Alert>) -> Seq<AlertView> {
    alerts.map_values(|a: Alert| a@)
}

/// What evaluating an event against the candidates `recent` gives: the
/// alerts, and the candidates after it.
pub open spec fn scenario_step(recent: Map<u64, ProcessSnapshot>, event: NormalizedEvent) -> (
    Seq<AlertView>,
    Map<u64, ProcessSnapshot>,
) {
    let kept = pruned(recent, event_time(event));
    match event {
        NormalizedEvent::ProcessStart(s) => (
            Seq::empty(),
            if reverse_shell_name(s.comm@) {
                kept.insert(table_key(s.pid, s.tid), snapshot_of(s))
            } else {
                kept
            },
        ),
        NormalizedEvent::NetworkConnect(c) => (
            if reverse_shell_fires(kept, c) {
                seq![reverse_shell_view(kept[table_key(c.pid, c.tid)], c)]
            } else {
                Seq::empty()
            },
            kept,
        ),
        _ => (Seq::empty(), kept),
    }
}

impl ScenarioEngine {
    /// The candidate processes, by `table_key` of their `(pid, tid)`.
    pub closed spec fn recent(&self) -> Map<u64, ProcessSnapshot> {
        self.recent_processes@
    }

    pub fn new() -> (r: Self)
        ensures
            r.recent() == Map::<u64, ProcessSnapshot>::empty(),
    {
        ScenarioEngine { recent_processes: HashMap::new() }
    }

    /// Drops the candidates whose window is over at `now_ns`.
    fn prune(&mut self, now_ns: u64)
        ensures
            final(self).recent() == pruned(old(self).recent(), now_ns),
    {
        let mut kept: HashMap<u64, ProcessSnapshot> = HashMap::new();
        let ghost m = self.recent_processes@;
        let ghost v = vstd::std_specs::iter::IteratorSpec::remaining(&vstd::std_specs::hash::spec_hash_map_iter(&self.recent_processes));
        let ghost mut n: int = 0;
        for entry in it: self.recent_processes.iter()
            invariant
                m == self.recent_processes@,
                v == vstd::std_specs::iter::IteratorSpec::remaining(&vstd::std_specs::hash::spec_hash_map_iter(&self.recent_processes)),
                v == it.seq(),
                n == it.index(),
                forall|k: u64| #[trigger]
                    kept@.contains_key(k) ==> m.contains_key(k) && in_window(
                        m[k].timestamp_ns,
                        now_ns,
                    ) && kept@[k] == m[k],
                forall|i: int|
                    0 <= i < n && in_window((*v[i].1).timestamp_ns, now_ns)
                        ==> #[trigger] kept@.contains_key(*v[i].0),
        {
            proof {
                n = n + 1;
            }
            let (k, val) = entry;
            assert(v[n - 1] == (k, val));
            assert(m.contains_key(*k) && m[*k] == *val);
            if within_window(val.timestamp_ns, now_ns) {
                kept.insert(*k, val.duplicate());
            }
        }
        proof {
            assert forall|k: u64| #[trigger]
                pruned(m, now_ns).contains_key(k) implies kept@.contains_key(k) by {
                assert(v.contains((&k, &m[k])));
                let i = choose|i: int| 0 <= i < v.len() && v[i] == (&k, &m[k]);
                assert(*v[i].0 == k);
            }
            assert(kept@ =~= pruned(m, now_ns));
        }
        self.recent_processes = kept;
    }

    /// Evaluates one event: the scenario alerts it completes.
    pub fn evaluate(&mut self, event: &NormalizedEvent) -> (r: Vec<Alert>)
        ensures
            (views_of(r@), final(self).recent()) == scenario_step(old(self).recent(), *event),
    {
        let timestamp_ns = event_timestamp_ns(event);
        self.prune(timestamp_ns);
        match event {
            NormalizedEvent::ProcessStart(start) => {
                if is_reverse_shell_process(start.comm.as_str()) {
                    let key = process_table::key_of(start.pid, start.tid);
                    self.recent_processes.insert(key, ProcessSnapshot::from_start(start));
                }
                let r: Vec<Alert> = Vec::new();
                assert(views_of(r@) =~= Seq::<AlertView>::empty());
                r
            },
            NormalizedEvent::NetworkConnect(connect) => self.evaluate_reverse_shell(connect),
            _ => {
                let r: Vec<Alert> = Vec::new();
                assert(views_of(r@) =~= Seq::<AlertView>::empty());
                r
            },
        }
    }

    fn evaluate_reverse_shell(&self, connect: &NetworkConnect) -> (r: Vec<Alert>)
        ensures
            views_of(r@) == if reverse_shell_fires(self.recent(), *connect) {
                seq![reverse_shell_view(self.recent()[table_key(connect.pid, connect.tid)], *connect)]
            } else {
                Seq::empty()
            },
    {
        let empty: Vec<Alert> = Vec::new();
        assert(views_of(empty@) =~= Seq::<AlertView>::empty());
        if !is_reverse_shell_port(connect.remote_port) {
            return empty;
        }
        let key = process_table::key_of(connect.pid, connect.tid);
        let process = match self.recent_processes.get(&key) {
            Some(p) => p,
            None => return empty,
        };
        if !within_window(process.timestamp_ns, connect.timestamp_ns) {
            return empty;
        }
        let mut r: Vec<Alert> = Vec::new();
        r.push(reverse_shell_alert(process, connect));
        assert(views_of(r@) =~= seq![reverse_shell_view(*process, *connect)]);
        r
    }
}

/// A candidate that started at `start` and connects out to a reverse-shell
/// port within the window raises exactly one alert, about that process.
pub proof fn law_reverse_shell_detected(
    recent: Map<u64, ProcessSnapshot>,
    start: ProcessStart,
    connect: NetworkConnect,
)
    requires
        reverse_shell_name(start.comm@),
        reverse_shell_port(connect.remote_port),
        connect.pid == start.pid,
        connect.tid == start.tid,
        in_window(start.timestamp_ns, connect.timestamp_ns),
    ensures
        ({
            let after_start = scenario_step(recent, NormalizedEvent::ProcessStart(start)).1;
            let (alerts, _) = scenario_step(after_start, NormalizedEvent::NetworkConnect(connect));
            &&& alerts.len() == 1
            &&& alerts[0] == reverse_shell_view(snapshot_of(start), connect)
        }),
{
    let key = table_key(start.pid, start.tid);
    let after_start = scenario_step(recent, NormalizedEvent::ProcessStart(start)).1;
    assert(after_start.contains_key(key));
    assert(after_start[key] == snapshot_of(start));
    assert(pruned(after_start, connect.timestamp_ns).contains_key(key));
}

/// A connect never raises the alert for a process that is not a candidate,
/// whose candidacy ran out, or on a port that reverse shells do not use.
pub proof fn law_reverse_shell_needs_all_parts(recent: Map<u64, ProcessSnapshot>, connect: NetworkConnect)
    requires
        !reverse_shell_fires(pruned(recent, connect.timestamp_ns), connect),
    ensures
        scenario_step(recent, NormalizedEvent::NetworkConnect(connect)).0.len() == 0,
{
}

/// Process starts and events other than connects never raise scenario
/// alerts.
pub proof fn law_only_connects_alert(recent: Map<u64, ProcessSnapshot>, event: NormalizedEvent)
    requires
        !(event is NetworkConnect),
    ensures
        scenario_step(recent, event).0.len() == 0,
{
}


/// Each of sh, bash, dash, zsh, ksh, mksh, busybox, nc, ncat, socat,
/// python, python3, perl, php and ruby is watched: a start by it, followed
/// by a connect of the same task to port 4444, 1337, 31337, 9001 or 5555 at
/// most ten seconds later, raises exactly one alert, about that process.
pub proof fn law_listed_shells_are_watched(
    recent: Map<u64, ProcessSnapshot>,
    start: ProcessStart,
    connect: NetworkConnect,
)
    requires
        ({
            let c = start.comm@;
            ||| c == "sh"@
            ||| c == "bash"@
            ||| c == "dash"@
            ||| c == "zsh"@
            ||| c == "ksh"@
            ||| c == "mksh"@
            ||| c == "busybox"@
            ||| c == "nc"@
            ||| c == "ncat"@
            ||| c == "socat"@
            ||| c == "python"@
            ||| c == "python3"@
            ||| c == "perl"@
            ||| c == "php"@
            ||| c == "ruby"@
        }),
        connect.remote_port == 4444 || connect.remote_port == 1337 || connect.remote_port == 31337
            || connect.remote_port == 9001 || connect.remote_port == 5555,
        connect.pid == start.pid,
        connect.tid == start.tid,
        start.timestamp_ns <= connect.timestamp_ns <= start.timestamp_ns + 10_000_000_000,
    ensures
        ({
            let after_start = scenario_step(recent, NormalizedEvent::ProcessStart(start)).1;
            let (alerts, _) = scenario_step(after_start, NormalizedEvent::NetworkConnect(connect));
            &&& alerts.len() == 1
            &&& alerts[0] == reverse_shell_view(snapshot_of(start), connect)
        }),
{
    law_reverse_shell_detected(recent, start, connect);
}

} // verus!
