use rand_guard::config::{NetworkDetectionRule, NetworkDirection, PersistenceRule};
use rand_guard::detections::{check_network, check_persistence};

fn persistence_rule(name: &str, paths: &[&str], patterns: &[&str], operations: &[&str]) -> PersistenceRule {
    PersistenceRule {
        name: name.to_string(),
        paths: paths.iter().map(|s| s.to_string()).collect(),
        patterns: patterns.iter().map(|s| s.to_string()).collect(),
        operations: operations.iter().map(|s| s.to_string()).collect(),
    }
}

#[test]
fn detects_systemd_service_modification() {
    let rules = vec![persistence_rule(
        "systemd_service_modified",
        &["/etc/systemd/system/"],
        &["*.service"],
        &["file_open"],
    )];

    assert_eq!(
        check_persistence("/etc/systemd/system/foo.service", "file_open", &rules),
        Some("systemd_service_modified".to_string())
    );
}

#[test]
fn wildcard_extension_requires_dot_suffix() {
    let rules = vec![persistence_rule(
        "systemd_service_modified",
        &[],
        &["*.service"],
        &["file_open"],
    )];

    assert_eq!(
        check_persistence("/etc/systemd/system/fooservice", "file_open", &rules),
        None
    );
    assert_eq!(
        check_persistence("/etc/systemd/system/foo.service", "file_open", &rules),
        Some("systemd_service_modified".to_string())
    );
}

#[test]
fn misses_non_matching_path() {
    let rules = vec![persistence_rule(
        "systemd_service_modified",
        &["/etc/systemd/system/"],
        &["*.service"],
        &["file_open"],
    )];

    assert_eq!(check_persistence("/tmp/foo.service", "file_open", &rules), None);
}

#[test]
fn misses_non_matching_operation() {
    let rules = vec![persistence_rule(
        "systemd_service_modified",
        &["/etc/systemd/system/"],
        &["*.service"],
        &["file_write"],
    )];

    assert_eq!(
        check_persistence("/etc/systemd/system/foo.service", "file_open", &rules),
        None
    );
}

#[test]
fn wildcard_operation_matches_any() {
    let rules = vec![persistence_rule("cron_modified", &["/etc/crontab"], &[], &["*"])];

    assert_eq!(
        check_persistence("/etc/crontab", "file_unlink", &rules),
        Some("cron_modified".to_string())
    );
}

#[test]
fn persistence_rule_without_paths_or_patterns_never_fires() {
    let rules = vec![persistence_rule("empty", &[], &[], &["*"])];
    assert_eq!(check_persistence("/etc/crontab", "file_open", &rules), None);
}

#[test]
fn persistence_pattern_without_glob_matches_anywhere_in_path() {
    let rules = vec![persistence_rule("ssh_keys", &[], &["authorized_keys"], &["file_write"])];
    assert_eq!(
        check_persistence("/root/.ssh/authorized_keys2", "file_write", &rules),
        Some("ssh_keys".to_string())
    );
}

#[test]
fn first_matching_persistence_rule_wins() {
    let rules = vec![
        persistence_rule("first", &["/etc/"], &[], &["*"]),
        persistence_rule("second", &["/etc/cron"], &[], &["*"]),
    ];
    assert_eq!(
        check_persistence("/etc/crontab", "file_open", &rules),
        Some("first".to_string())
    );
}

#[test]
fn network_detection_needs_direction_port_and_name() {
    let rules = vec![NetworkDetectionRule {
        name: "nc_listener".to_string(),
        directions: vec![NetworkDirection::Inbound],
        ports: vec![4444],
        process_names: vec!["nc".to_string()],
    }];
    assert_eq!(
        check_network(NetworkDirection::Inbound, 4444, "nc", &rules),
        Some("nc_listener".to_string())
    );
    assert_eq!(check_network(NetworkDirection::Outbound, 4444, "nc", &rules), None);
    assert_eq!(check_network(NetworkDirection::Inbound, 4445, "nc", &rules), None);
    assert_eq!(check_network(NetworkDirection::Inbound, 4444, "bash", &rules), None);
}
