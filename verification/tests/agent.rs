use rand_guard::abi::{EventKind, ProcessExecEvent, EVENT_SCHEMA_VERSION};
use rand_guard::agent::{handle_record, health_record, smoke_complete, tracepoints_to_attach, Counters};
use rand_guard::config::{
    AgentConfig, AgentMode, Config, DetectionsConfig, EbpfConfig, EventsConfig, FileConfig,
    NetworkConfig, OutputConfig, OutputFormat, OutputType, PerformanceConfig, ProcessConfig,
};
use rand_guard::dispatch::DispatchContext;
use rand_guard::process_table::ProcessTable;
use rand_guard::rate_limiter::RateLimiter;
use rand_guard::rules::RuleEngine;

fn ag_strings(v: &[&str]) -> Vec<String> {
    v.iter().map(|s| s.to_string()).collect()
}

fn ag_config(file_on: bool, network_on: bool) -> Config {
    Config {
        agent: AgentConfig { id: "a".to_string(), mode: AgentMode::Monitor, log_level: "info".to_string() },
        ebpf: EbpfConfig { enabled: true, buffer_size: 8192 },
        events: EventsConfig { process: true, file: file_on, network: network_on },
        process: ProcessConfig {
            enabled: true,
            hooks: ag_strings(&["execve", "exit"]),
            collect_args: false,
            collect_env: false,
            collect_cwd: false,
        },
        file: FileConfig {
            enabled: true,
            hooks: ag_strings(&["unlink", "openat"]),
            watch_paths: vec![],
            watch_patterns: vec![],
            exclude_paths: vec![],
        },
        network: NetworkConfig {
            enabled: network_on,
            hooks: ag_strings(&["bind"]),
            collect_dns: false,
            collect_payload: false,
        },
        rules: vec![],
        detections: DetectionsConfig { persistence: vec![], network: vec![] },
        output: OutputConfig { output_type: OutputType::Stdout, format: OutputFormat::Json, path: None },
        performance: PerformanceConfig { max_events_per_second: 1, drop_when_full: true },
    }
}

#[test]
fn tracepoints_follow_hooks_in_attach_order() {
    let plan = tracepoints_to_attach(&ag_config(true, true));
    let names: Vec<(String, String, String)> =
        plan.into_iter().map(|t| (t.program, t.category, t.event)).collect();
    let expected: Vec<(String, String, String)> = [
        ("sched_process_exec", "sched"),
        ("sys_enter_execve", "syscalls"),
        ("sched_process_exit", "sched"),
        ("sys_enter_openat", "syscalls"),
        ("sys_enter_unlink", "syscalls"),
        ("sys_enter_bind", "syscalls"),
    ]
    .iter()
    .map(|(p, c)| (p.to_string(), c.to_string(), p.to_string()))
    .collect();
    assert_eq!(names, expected);
}

#[test]
fn disabled_event_classes_attach_no_tracepoints() {
    let plan = tracepoints_to_attach(&ag_config(false, false));
    assert_eq!(plan.len(), 3);
}

#[test]
fn records_are_counted_and_rate_limited() {
    let mut table = ProcessTable::new();
    let (mut a, mut b, mut c) = (false, false, false);
    let mut ctx = DispatchContext {
        table: &mut table,
        file_config: None,
        persistence_detections: &[],
        network_detections: &[],
        ci_smoke: false,
        ci_smoke_start_seen: &mut a,
        ci_smoke_rel_or_exit_seen: &mut b,
        ci_smoke_file_open_seen: &mut c,
    };
    let mut limiter = RateLimiter::new(0);
    let engine = RuleEngine::new(&[]);
    let mut counters = Counters::new();
    let mut exec = ProcessExecEvent::default();
    exec.header.kind = EventKind::ProcessExec.as_u16();
    exec.header.version = EVENT_SCHEMA_VERSION;
    exec.header.size = ProcessExecEvent::SIZE;
    let out = handle_record(&exec.to_bytes(), "", &mut ctx, &mut limiter, &engine, &mut counters);
    assert!(out.is_some());
    let out = handle_record(&[1, 2, 3], "", &mut ctx, &mut limiter, &engine, &mut counters);
    assert!(out.is_none());
    assert_eq!(counters.raw_events_read, 2);
    assert_eq!(counters.normalized_events_output, 1);
    assert_eq!(counters.invalid_schema, 1);
    assert_eq!(counters.userspace_filtered, 0);
    drop(ctx);
    let record = health_record(&counters, &table, 9, Some(100));
    assert_eq!(record.process_table_size, 1);
    assert_eq!(record.pending_exec_source_size, 0);
    assert_eq!(record.raw_events_read, 2);
    assert_eq!(record.uptime_secs, 9);
    assert_eq!(record.rss_kb, Some(100));
}

#[test]
fn smoke_run_needs_all_three_kinds() {
    assert!(smoke_complete(true, true, true));
    assert!(!smoke_complete(true, false, true));
}
