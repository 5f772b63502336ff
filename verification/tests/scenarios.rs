use rand_guard::normalize::{NetworkConnect, NormalizedEvent, ProcessStart};
use rand_guard::scenarios::ScenarioEngine;

fn sc_process_start(comm: &str, timestamp_ns: u64) -> NormalizedEvent {
    NormalizedEvent::ProcessStart(ProcessStart {
        pid: 10,
        tid: 10,
        ppid: 1,
        uid: 1000,
        gid: 1000,
        comm: comm.to_string(),
        exe_path: format!("/usr/bin/{comm}"),
        source: Some("execve".to_string()),
        timestamp_ns,
        filename_truncated: false,
    })
}

fn sc_network_connect(port: u16, timestamp_ns: u64) -> NormalizedEvent {
    NormalizedEvent::NetworkConnect(NetworkConnect {
        pid: 10,
        tid: 10,
        ppid: 1,
        uid: 1000,
        gid: 1000,
        comm: "sh".to_string(),
        exe_path: "/usr/bin/sh".to_string(),
        family: "ipv4".to_string(),
        socket_fd: 3,
        remote_addr: "127.0.0.1".to_string(),
        remote_port: port,
        alert: false,
        detection_type: None,
        timestamp_ns,
    })
}

#[test]
fn reverse_shell_alerts_on_shell_connect_to_suspicious_port() {
    let mut engine = ScenarioEngine::new();

    assert!(engine.evaluate(&sc_process_start("sh", 1_000)).is_empty());
    let alerts = engine.evaluate(&sc_network_connect(4444, 2_000));

    assert_eq!(alerts.len(), 1);
    assert_eq!(alerts[0].rule_id, "BUILTIN-SCENARIO-REVERSE-SHELL-001");
    assert_eq!(alerts[0].process_name, Some("sh".to_string()));
    assert_eq!(alerts[0].port, Some(4444));
    assert_eq!(alerts[0].addr, Some("127.0.0.1".to_string()));
}

#[test]
fn reverse_shell_ignores_benign_port() {
    let mut engine = ScenarioEngine::new();

    engine.evaluate(&sc_process_start("sh", 1_000));
    let alerts = engine.evaluate(&sc_network_connect(443, 2_000));

    assert!(alerts.is_empty());
}

#[test]
fn reverse_shell_ignores_events_outside_window() {
    let mut engine = ScenarioEngine::new();

    engine.evaluate(&sc_process_start("sh", 1_000));
    let alerts = engine.evaluate(&sc_network_connect(4444, 11_000_001_001));

    assert!(alerts.is_empty());
}

#[test]
fn reverse_shell_ignores_non_candidate_process() {
    let mut engine = ScenarioEngine::new();

    engine.evaluate(&sc_process_start("curl", 1_000));
    let alerts = engine.evaluate(&sc_network_connect(4444, 2_000));

    assert!(alerts.is_empty());
}

#[test]
fn reverse_shell_alert_carries_process_details() {
    let mut engine = ScenarioEngine::new();
    engine.evaluate(&sc_process_start("python3", 5));
    let alerts = engine.evaluate(&sc_network_connect(9001, 10_000_000_005));
    assert_eq!(alerts.len(), 1);
    let a = &alerts[0];
    assert_eq!(a.timestamp_ns, 10_000_000_005);
    assert_eq!(a.rule_name, "Reverse shell behavior");
    assert_eq!(a.rule_type, "scenario");
    assert_eq!(a.severity, "high");
    assert_eq!(a.action, "alert");
    assert_eq!(a.source_event_type, "network_connect");
    assert_eq!(a.ppid, Some(1));
    assert_eq!(a.comm, Some("python3".to_string()));
    assert_eq!(a.exe_path, Some("/usr/bin/python3".to_string()));
    assert_eq!(a.direction, Some("outbound".to_string()));
    assert_eq!(a.family, Some("ipv4".to_string()));
    assert_eq!(a.parent_name, None);
}

#[test]
fn later_event_prunes_expired_candidates() {
    let mut engine = ScenarioEngine::new();
    engine.evaluate(&sc_process_start("bash", 1_000));
    engine.evaluate(&sc_process_start("curl", 20_000_000_000));
    let alerts = engine.evaluate(&sc_network_connect(4444, 1_500));
    assert!(alerts.is_empty());
}
