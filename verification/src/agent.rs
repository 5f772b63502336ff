//! The agent's decisions around the ring buffer: which tracepoints the
//! configuration asks for, what becomes of each raw record, the counters
//! that the health event reports, and when the CI smoke run is done.
use vstd::prelude::*;
use crate::config::Config;
use crate::dispatch::{dispatch_event, DispatchContext, DispatchResult};
use crate::health::HealthRecord;
use crate::normalize::NormalizedEvent;
use crate::process_table::ProcessTable;
use crate::rate_limiter::RateLimiter;
use crate::rate_limiter;
use crate::rules::alerts::Alert;
use crate::rules::engine::RuleEngine;
use crate::rules::engine;
use crate::text::{owned, text_eq};

verus! {

/// One tracepoint program to attach: its name in the object, and the
/// tracepoint category and event it attaches to.
#[derive(Clone, Debug, PartialEq, Eq)]
pub struct Tracepoint {
    pub program: String,
    pub category: String,
    pub event: String,
}

/// A tracepoint by the texts of its program, category and event.
pub open spec fn tp(program: Seq<char>, category: Seq<char>, event: Seq<char>) -> (
    Seq<char>,
    Seq<char>,
    Seq<char>,
) {
    (program, category, event)
}

/// A syscall-entry tracepoint whose program has the event's name.
pub open spec fn syscall_tp(event: Seq<char>) -> (Seq<char>, Seq<char>, Seq<char>) {
    tp(event, "syscalls"@, event)
}

/// A scheduler tracepoint whose program has the event's name.
pub open spec fn sched_tp(event: Seq<char>) -> (Seq<char>, Seq<char>, Seq<char>) {
    tp(event, "sched"@, event)
}

/// The hook list names `hook`.
pub open spec fn hook_listed(hooks: Seq<String>, hook: Seq<char>) -> bool {
    exists|i: int| 0 <= i < hooks.len() && #[trigger] hooks[i]@ == hook
}

/// `part` when `on`, else nothing.
pub open spec fn when(on: bool, part: Seq<(Seq<char>, Seq<char>, Seq<char>)>) -> Seq<
    (Seq<char>, Seq<char>, Seq<char>),
> {
    if on {
        part
    } else {
        Seq::empty()
    }
}

/// The process tracepoints the hooks ask for.
pub open spec fn process_plan(p: Seq<String>) -> Seq<(Seq<char>, Seq<char>, Seq<char>)> {
    when(
        hook_listed(p, "execve"@),
        seq![sched_tp("sched_process_exec"@), syscall_tp("sys_enter_execve"@)],
    ) + when(hook_listed(p, "fork"@), seq![sched_tp("sched_process_fork"@)]) + when(
        hook_listed(p, "exit"@),
        seq![sched_tp("sched_process_exit"@)],
    ) + when(hook_listed(p, "execveat"@), seq![syscall_tp("sys_enter_execveat"@)])
}

/// The open and write tracepoints the hooks ask for, when `on`.
pub open spec fn open_write_plan(on: bool, f: Seq<String>) -> Seq<(Seq<char>, Seq<char>, Seq<char>)> {
    when(on && hook_listed(f, "openat"@), seq![syscall_tp("sys_enter_openat"@)]) + when(
        on && hook_listed(f, "openat2"@),
        seq![syscall_tp("sys_enter_openat2"@)],
    ) + when(on && hook_listed(f, "write"@), seq![syscall_tp("sys_enter_write"@)]) + when(
        on && hook_listed(f, "writev"@),
        seq![syscall_tp("sys_enter_writev"@)],
    ) + when(on && hook_listed(f, "pwrite64"@), seq![syscall_tp("sys_enter_pwrite64"@)])
}

/// The rename and unlink tracepoints the hooks ask for, when `on`.
pub open spec fn rename_unlink_plan(on: bool, f: Seq<String>) -> Seq<(Seq<char>, Seq<char>, Seq<char>)> {
    when(on && hook_listed(f, "rename"@), seq![syscall_tp("sys_enter_rename"@)]) + when(
        on && hook_listed(f, "renameat"@),
        seq![syscall_tp("sys_enter_renameat"@)],
    ) + when(on && hook_listed(f, "renameat2"@), seq![syscall_tp("sys_enter_renameat2"@)]) + when(
        on && hook_listed(f, "unlink"@),
        seq![syscall_tp("sys_enter_unlink"@)],
    ) + when(on && hook_listed(f, "unlinkat"@), seq![syscall_tp("sys_enter_unlinkat"@)])
}

/// The file tracepoints the hooks ask for, when `on`.
pub open spec fn file_plan(on: bool, f: Seq<String>) -> Seq<(Seq<char>, Seq<char>, Seq<char>)> {
    open_write_plan(on, f) + rename_unlink_plan(on, f)
}

/// The network tracepoints the hooks ask for, when `on`.
pub open spec fn network_plan(on: bool, n: Seq<String>) -> Seq<(Seq<char>, Seq<char>, Seq<char>)> {
    when(on && hook_listed(n, "connect"@), seq![syscall_tp("sys_enter_connect"@)]) + when(
        on && hook_listed(n, "bind"@),
        seq![syscall_tp("sys_enter_bind"@)],
    ) + when(on && hook_listed(n, "listen"@), seq![syscall_tp("sys_enter_listen"@)])
}

/// The tracepoints a configuration asks for, in attach order: process hooks
/// always; file hooks when file events and file collection are on; network
/// hooks when network events and network collection are on.
pub open spec fn tracepoint_plan(c: Config) -> Seq<(Seq<char>, Seq<char>, Seq<char>)> {
    process_plan(c.process.hooks@) + file_plan(c.events.file && c.file.enabled, c.file.hooks@)
        + network_plan(c.events.network && c.network.enabled, c.network.hooks@)
}

/// The texts of a tracepoint.
pub open spec fn tp_view(t: Tracepoint) -> (Seq<char>, Seq<char>, Seq<char>) {
    (t.program@, t.category@, t.event@)
}

fn lists_hook(hooks: &Vec<String>, hook: &str) -> (r: bool)
    ensures
        r == hook_listed(hooks@, hook@),
{
    let mut i: usize = 0;
    while i < hooks.len()
        invariant
            i <= hooks@.len(),
            forall|j: int| 0 <= j < i ==> #[trigger] hooks@[j]@ != hook@,
        decreases hooks@.len() - i,
    {
        if text_eq(hooks[i].as_str(), hook) {
            return true;
        }
        i = i + 1;
    }
    false
}

fn push_tp(plan: &mut Vec<Tracepoint>, program: &str, category: &str, event: &str)
    ensures
        plan_view(final(plan)@) == plan_view(old(plan)@).push(tp(program@, category@, event@)),
{
    plan.push(Tracepoint { program: owned(program), category: owned(category), event: owned(event) });
    assert(plan_view(final(plan)@) =~= old(plan)@.map_values(
        |t: Tracepoint| tp_view(t),
    ).push(tp(program@, category@, event@)));
}

fn push_when(
    plan: &mut Vec<Tracepoint>,
    on: bool,
    category: &str,
    event: &str,
)
    ensures
        plan_view(final(plan)@) == plan_view(old(plan)@) + when(on, seq![tp(event@, category@, event@)]),
{
    if on {
        push_tp(plan, event, category, event);
    } else {
        assert(plan_view(old(plan)@) + when(on, seq![tp(event@, category@, event@)])
            =~= plan_view(old(plan)@));
    }
}

/// The view of a list of tracepoints.
pub open spec fn plan_view(v: Seq<Tracepoint>) -> Seq<(Seq<char>, Seq<char>, Seq<char>)> {
    v.map_values(|t: Tracepoint| tp_view(t))
}

fn push_process_plan(plan: &mut Vec<Tracepoint>, p: &Vec<String>)
    ensures
        plan_view(final(plan)@) == plan_view(old(plan)@) + process_plan(p@),
{
    let ghost start = plan_view(plan@);
    let exec = lists_hook(p, "execve");
    push_when(plan, exec, "sched", "sched_process_exec");
    push_when(plan, exec, "syscalls", "sys_enter_execve");
    let ghost a = start + when(exec, seq![sched_tp("sched_process_exec"@), syscall_tp("sys_enter_execve"@)]);
    assert(plan_view(plan@) =~= a);
    let on = lists_hook(p, "fork");
    push_when(plan, on, "sched", "sched_process_fork");
    let on = lists_hook(p, "exit");
    push_when(plan, on, "sched", "sched_process_exit");
    let on = lists_hook(p, "execveat");
    push_when(plan, on, "syscalls", "sys_enter_execveat");
    assert(plan_view(plan@) =~= start + process_plan(p@));
}

fn push_open_write_plan(plan: &mut Vec<Tracepoint>, files: bool, f: &Vec<String>)
    ensures
        plan_view(final(plan)@) == plan_view(old(plan)@) + open_write_plan(files, f@),
{
    let ghost start = plan_view(plan@);
    let on = files && lists_hook(f, "openat");
    push_when(plan, on, "syscalls", "sys_enter_openat");
    let on = files && lists_hook(f, "openat2");
    push_when(plan, on, "syscalls", "sys_enter_openat2");
    let on = files && lists_hook(f, "write");
    push_when(plan, on, "syscalls", "sys_enter_write");
    let on = files && lists_hook(f, "writev");
    push_when(plan, on, "syscalls", "sys_enter_writev");
    let on = files && lists_hook(f, "pwrite64");
    push_when(plan, on, "syscalls", "sys_enter_pwrite64");
    assert(plan_view(plan@) =~= start + open_write_plan(files, f@));
}

fn push_rename_unlink_plan(plan: &mut Vec<Tracepoint>, files: bool, f: &Vec<String>)
    ensures
        plan_view(final(plan)@) == plan_view(old(plan)@) + rename_unlink_plan(files, f@),
{
    let ghost start = plan_view(plan@);
    let on = files && lists_hook(f, "rename");
    push_when(plan, on, "syscalls", "sys_enter_rename");
    let on = files && lists_hook(f, "renameat");
    push_when(plan, on, "syscalls", "sys_enter_renameat");
    let on = files && lists_hook(f, "renameat2");
    push_when(plan, on, "syscalls", "sys_enter_renameat2");
    let on = files && lists_hook(f, "unlink");
    push_when(plan, on, "syscalls", "sys_enter_unlink");
    let on = files && lists_hook(f, "unlinkat");
    push_when(plan, on, "syscalls", "sys_enter_unlinkat");
    assert(plan_view(plan@) =~= start + rename_unlink_plan(files, f@));
}

fn push_network_plan(plan: &mut Vec<Tracepoint>, nets: bool, n: &Vec<String>)
    ensures
        plan_view(final(plan)@) == plan_view(old(plan)@) + network_plan(nets, n@),
{
    let ghost start = plan_view(plan@);
    let on = nets && lists_hook(n, "connect");
    push_when(plan, on, "syscalls", "sys_enter_connect");
    let on = nets && lists_hook(n, "bind");
    push_when(plan, on, "syscalls", "sys_enter_bind");
    let on = nets && lists_hook(n, "listen");
    push_when(plan, on, "syscalls", "sys_enter_listen");
    assert(plan_view(plan@) =~= start + network_plan(nets, n@));
}

/// The tracepoints to attach for a configuration, in attach order.
pub fn tracepoints_to_attach(config: &Config) -> (r: Vec<Tracepoint>)
    ensures
        plan_view(r@) == tracepoint_plan(*config),
{
    let mut plan: Vec<Tracepoint> = Vec::new();
    assert(plan_view(plan@) =~= Seq::empty());
    push_process_plan(&mut plan, &config.process.hooks);
    let files = config.events.file && config.file.enabled;
    push_open_write_plan(&mut plan, files, &config.file.hooks);
    push_rename_unlink_plan(&mut plan, files, &config.file.hooks);
    push_network_plan(&mut plan, config.events.network && config.network.enabled, &config.network.hooks);
    assert(plan_view(plan@) =~= tracepoint_plan(*config));
    plan
}

/// The counters the health event reports.
#[derive(Clone, Copy, Debug, PartialEq, Eq)]
pub struct Counters {
    pub raw_events_read: u64,
    pub normalized_events_output: u64,
    pub alerts_output: u64,
    pub userspace_filtered: u64,
    pub userspace_rate_limited: u64,
    pub invalid_schema: u64,
}

impl Counters {
    pub fn new() -> (r: Counters)
        ensures
            r == (Counters {
                raw_events_read: 0,
                normalized_events_output: 0,
                alerts_output: 0,
                userspace_filtered: 0,
                userspace_rate_limited: 0,
                invalid_schema: 0,
            }),
    {
        Counters {
            raw_events_read: 0,
            normalized_events_output: 0,
            alerts_output: 0,
            userspace_filtered: 0,
            userspace_rate_limited: 0,
            invalid_schema: 0,
        }
    }
}

/// One more, wrapping around at the top as a release build does.
pub open spec fn bump(n: u64) -> u64 {
    if n == u64::MAX {
        0
    } else {
        (n + 1) as u64
    }
}

/// `k` more, wrapping around at the top.
pub open spec fn bump_by(n: u64, k: nat) -> u64 {
    ((n + k) % 0x1_0000_0000_0000_0000) as u64
}

fn add_wrapping(n: u64, k: usize) -> (r: u64)
    ensures
        r == bump_by(n, k as nat),
{
    let k64 = k as u64;
    let r = n.wrapping_add(k64);
    assert(r == bump_by(n, k as nat)) by (nonlinear_arith)
        requires
            r == (n + k64) % 0x1_0000_0000_0000_0000,
            k64 == k,
    ;
    r
}

/// The counters after a dispatch result: filtered records and records of
/// a bad schema are counted; a normalized event is counted as rate-limited
/// when `allowed` is false, else as output, with its `alerts`.
pub open spec fn counted(
    c: Counters,
    r: DispatchResult,
    allowed: bool,
    alerts: nat,
) -> Counters {
    let c = Counters { raw_events_read: bump(c.raw_events_read), ..c };
    match r {
        DispatchResult::Normalized(_) => if allowed {
            Counters {
                normalized_events_output: bump(c.normalized_events_output),
                alerts_output: bump_by(c.alerts_output, alerts),
                ..c
            }
        } else {
            Counters { userspace_rate_limited: bump(c.userspace_rate_limited), ..c }
        },
        DispatchResult::Filtered => Counters { userspace_filtered: bump(c.userspace_filtered), ..c },
        DispatchResult::InvalidSchema => Counters { invalid_schema: bump(c.invalid_schema), ..c },
        _ => c,
    }
}

fn inc(n: u64) -> (r: u64)
    ensures
        r == bump(n),
{
    if n == u64::MAX {
        0
    } else {
        n + 1
    }
}

/// What becomes of a dispatch result `d`: a normalized event that the rate
/// limiter lets through comes back with the alerts of the rules, and is
/// counted as output; one held back (never a lifecycle event) is counted as
/// rate-limited; other results come back as nothing and are counted.
pub open spec fn handled(
    d: DispatchResult,
    r: Option<(NormalizedEvent, Vec<Alert>)>,
    before: Counters,
    after: Counters,
    rules: Seq<crate::config::RuleConfig>,
) -> bool {
    match d {
        DispatchResult::Normalized(e) => match r {
            Some((e2, alerts)) => e2 == e && engine::alert_views(alerts@) == engine::alerts_for(
                rules,
                e,
            ) && after == counted(before, d, true, alerts@.len()),
            None => !rate_limiter::lifecycle(e) && after == counted(before, d, false, 0),
        },
        _ => r is None && after == counted(before, d, false, 0),
    }
}

/// What the rate limiter did for dispatch result `d`: on a normalized event
/// it took one decision (in the current window or a new one), and the event
/// `passed` exactly when that decision let it through; other results leave
/// the limiter as it was.
pub open spec fn limited(d: DispatchResult, passed: bool, before: RateLimiter, after: RateLimiter) -> bool {
    match d {
        DispatchResult::Normalized(e) => exists|new_window: bool|
            #[trigger] rate_limiter::budget_decision(
                before.used(),
                before.budget(),
                rate_limiter::lifecycle(e),
                new_window,
            ) == (passed, after.used()),
        _ => after == before,
    }
}

/// Handles one raw record: dispatches it, lets the rate limiter decide on a
/// normalized event, evaluates the rules on an event that passes, and
/// updates the counters.  Returns the event to write and its alerts.
pub fn handle_record(
    bytes: &[u8],
    resolved_path: &str,
    ctx: &mut DispatchContext<'_>,
    limiter: &mut RateLimiter,
    rules: &RuleEngine,
    counters: &mut Counters,
) -> (r: Option<(NormalizedEvent, Vec<Alert>)>)
    requires
        old(ctx).table.wf(),
        old(limiter).wf(),
    ensures
        final(ctx).table.wf(),
        final(limiter).wf(),
        final(limiter).budget() == old(limiter).budget(),
        exists|d: DispatchResult|
            #[trigger] crate::dispatch::dispatch_outcome(
                bytes@,
                old(ctx).file_config,
                old(ctx).persistence_detections@,
                old(ctx).network_detections@,
                resolved_path@,
                *old(ctx).table,
                *final(ctx).table,
                d,
            ) && handled(d, r, *old(counters), *final(counters), rules@) && limited(
                d,
                r is Some,
                *old(limiter),
                *final(limiter),
            ),
{
    let result = dispatch_event(bytes, ctx, resolved_path);
    counters.raw_events_read = inc(counters.raw_events_read);
    match result {
        DispatchResult::Normalized(event) => {
            if !limiter.allow(&event) {
                counters.userspace_rate_limited = inc(counters.userspace_rate_limited);
                return None;
            }
            counters.normalized_events_output = inc(counters.normalized_events_output);
            let alerts = rules.evaluate(&event);
            counters.alerts_output = add_wrapping(counters.alerts_output, alerts.len());
            Some((event, alerts))
        },
        DispatchResult::Filtered => {
            counters.userspace_filtered = inc(counters.userspace_filtered);
            None
        },
        DispatchResult::InvalidSchema => {
            counters.invalid_schema = inc(counters.invalid_schema);
            None
        },
        _ => None,
    }
}

/// The CI smoke run is done once it has seen a process start, a process
/// relationship or exit, and a file open.
pub fn smoke_complete(start_seen: bool, rel_or_exit_seen: bool, file_open_seen: bool) -> (r: bool)
    ensures
        r == (start_seen && rel_or_exit_seen && file_open_seen),
{
    start_seen && rel_or_exit_seen && file_open_seen
}

/// The health record for the counters, the table's sizes, the uptime and
/// the resident set size.
pub fn health_record(counters: &Counters, table: &ProcessTable, uptime_secs: u64, rss_kb: Option<
    u64,
>) -> (r: HealthRecord)
    ensures
        r.raw_events_read == counters.raw_events_read,
        r.normalized_events_output == counters.normalized_events_output,
        r.alerts_output == counters.alerts_output,
        r.userspace_filtered == counters.userspace_filtered,
        r.userspace_rate_limited == counters.userspace_rate_limited,
        r.invalid_schema == counters.invalid_schema,
        r.process_table_size == table.records().len(),
        r.pending_exec_source_size == table.pending_sources().len(),
        r.uptime_secs == uptime_secs,
        r.rss_kb == rss_kb,
{
    HealthRecord {
        raw_events_read: counters.raw_events_read,
        normalized_events_output: counters.normalized_events_output,
        alerts_output: counters.alerts_output,
        userspace_filtered: counters.userspace_filtered,
        userspace_rate_limited: counters.userspace_rate_limited,
        invalid_schema: counters.invalid_schema,
        process_table_size: table.record_count(),
        pending_exec_source_size: table.pending_exec_source_count(),
        uptime_secs,
        rss_kb,
    }
}

} // verus!
