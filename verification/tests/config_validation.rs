use rand_guard::config::{
    AgentConfig, AgentMode, Config, ConfigError, DetectionsConfig, EbpfConfig, EventsConfig,
    FileConfig, NetworkConfig, NetworkDetectionRule, NetworkDirection, OutputConfig, OutputFormat,
    OutputType, PerformanceConfig, PersistenceRule, ProcessConfig, RuleAction, RuleConfig,
    RuleType, Severity,
};

fn strings(v: &[&str]) -> Vec<String> {
    v.iter().map(|s| s.to_string()).collect()
}

fn cfg_example() -> Config {
    Config {
        agent: AgentConfig {
            id: "dev-host-001".to_string(),
            mode: AgentMode::Monitor,
            log_level: "info".to_string(),
        },
        ebpf: EbpfConfig { enabled: true, buffer_size: 8192 },
        events: EventsConfig { process: true, file: true, network: false },
        process: ProcessConfig {
            enabled: true,
            hooks: strings(&["execve", "fork", "exit", "execveat"]),
            collect_args: false,
            collect_env: false,
            collect_cwd: false,
        },
        file: FileConfig {
            enabled: true,
            hooks: strings(&["openat", "write", "rename", "unlink"]),
            watch_paths: strings(&["/etc", "/usr/bin", "/bin"]),
            watch_patterns: strings(&["*.service"]),
            exclude_paths: vec![],
        },
        network: NetworkConfig {
            enabled: false,
            hooks: strings(&["connect", "bind", "listen"]),
            collect_dns: false,
            collect_payload: false,
        },
        rules: vec![
            RuleConfig {
                id: "EDR-PROC-001".to_string(),
                name: "Netcat execution".to_string(),
                enabled: true,
                rule_type: RuleType::Process,
                severity: Severity::Medium,
                action: RuleAction::Alert,
                parent_names: vec![],
                process_names: strings(&["nc", "ncat"]),
                paths: vec![],
                patterns: vec![],
                operations: vec![],
                direction: None,
                ports: vec![],
            },
            RuleConfig {
                id: "EDR-FILE-001".to_string(),
                name: "Credential file modified".to_string(),
                enabled: true,
                rule_type: RuleType::File,
                severity: Severity::High,
                action: RuleAction::Alert,
                parent_names: vec![],
                process_names: vec![],
                paths: strings(&["/etc/passwd", "/etc/shadow", "/etc/sudoers"]),
                patterns: vec![],
                operations: strings(&["file_write", "file_rename", "file_unlink"]),
                direction: None,
                ports: vec![],
            },
            RuleConfig {
                id: "EDR-NET-001".to_string(),
                name: "Suspicious outbound port".to_string(),
                enabled: true,
                rule_type: RuleType::Network,
                severity: Severity::Medium,
                action: RuleAction::Alert,
                parent_names: vec![],
                process_names: vec![],
                paths: vec![],
                patterns: vec![],
                operations: vec![],
                direction: Some(NetworkDirection::Outbound),
                ports: vec![4444, 1337, 31337],
            },
        ],
        detections: DetectionsConfig {
            persistence: vec![PersistenceRule {
                name: "systemd_service_modified".to_string(),
                paths: strings(&["/etc/systemd/system/"]),
                patterns: strings(&["*.service"]),
                operations: strings(&["file_open", "file_write"]),
            }],
            network: vec![NetworkDetectionRule {
                name: "suspicious_outbound_port".to_string(),
                directions: vec![NetworkDirection::Outbound],
                ports: vec![4444, 1337, 31337],
                process_names: vec![],
            }],
        },
        output: OutputConfig { output_type: OutputType::Stdout, format: OutputFormat::Json, path: None },
        performance: PerformanceConfig { max_events_per_second: 5000, drop_when_full: true },
    }
}

fn cfg_err(config: &Config) -> String {
    config.validate_current_runtime().expect_err("configuration should be rejected").message()
}

#[test]
fn config_rejects_invalid_rule_semantics() {
    let mut config = cfg_example();
    config.rules[0].process_names.clear();
    config.rules[0].parent_names.clear();
    assert!(cfg_err(&config).contains("process_names or parent_names"));

    let mut config = cfg_example();
    config.rules[1].operations.clear();
    assert!(cfg_err(&config).contains("must define operations"));

    let mut config = cfg_example();
    config.rules[2].direction = None;
    assert!(cfg_err(&config).contains("must define direction"));
}

#[test]
fn config_rejects_unsupported_process_options() {
    let mut config = cfg_example();
    config.process.hooks.push("clone".to_string());
    assert!(cfg_err(&config).contains("process hook 'clone' is not supported"));

    let mut config = cfg_example();
    config.process.collect_args = true;
    assert!(cfg_err(&config).contains("process argument, environment, and cwd collection"));
}

#[test]
fn config_rejects_hooks_in_wrong_section() {
    let mut config = cfg_example();
    config.process.hooks.push("openat".to_string());
    assert!(cfg_err(&config).contains("process hook 'openat' is not supported"));

    let mut config = cfg_example();
    config.file.hooks.push("execve".to_string());
    assert!(cfg_err(&config).contains("file hook 'execve' is not supported"));
}

#[test]
fn config_rejects_inconsistent_file_event_flags() {
    let mut config = cfg_example();
    config.events.file = false;
    assert!(cfg_err(&config).contains("file collection is enabled but file events are disabled"));
}

#[test]
fn config_validates_supported_network_collection() {
    let mut config = cfg_example();
    config.events.network = true;
    config.network.enabled = true;
    config
        .validate_current_runtime()
        .expect("supported network hooks should validate when consistently enabled");
}

#[test]
fn config_rejects_unsupported_network_options() {
    let mut config = cfg_example();
    config.network.hooks.push("accept".to_string());
    assert!(cfg_err(&config).contains("network hook 'accept' is not supported"));

    let mut config = cfg_example();
    config.network.collect_dns = true;
    assert!(cfg_err(&config).contains("DNS collection is not supported"));

    let mut config = cfg_example();
    config.network.collect_payload = true;
    assert!(cfg_err(&config).contains("network payload collection is not supported"));
}

#[test]
fn config_rejects_inconsistent_network_event_flags() {
    let mut config = cfg_example();
    config.events.network = true;
    assert!(cfg_err(&config).contains("network events are enabled but network collection is disabled"));

    let mut config = cfg_example();
    config.network.enabled = true;
    assert!(cfg_err(&config).contains("network collection is enabled but network events are disabled"));
}

#[test]
fn config_validates_detect_mode() {
    let mut config = cfg_example();
    config.agent.mode = AgentMode::Detect;
    config.validate_current_runtime().expect("detect mode should validate now that alerts are emitted");
}

#[test]
fn validation_rejects_invalid_rule_semantics() {
    let mut config = cfg_example();
    config.rules[0].process_names.clear();
    config.rules[0].parent_names.clear();
    assert!(cfg_err(&config).contains("process_names or parent_names"));

    let mut config = cfg_example();
    config.rules[1].enabled = true;
    config.rules[1].operations.clear();
    assert!(cfg_err(&config).contains("must define operations"));

    let mut config = cfg_example();
    config.rules[2].enabled = true;
    config.rules[2].direction = None;
    assert!(cfg_err(&config).contains("must define direction"));
}

#[test]
fn validation_rejects_unsupported_process_options() {
    let mut config = cfg_example();
    config.process.hooks.push("clone".to_string());
    assert!(cfg_err(&config).contains("process hook 'clone' is not supported"));

    let mut config = cfg_example();
    config.process.collect_args = true;
    assert!(cfg_err(&config).contains("process argument, environment, and cwd collection"));
}

#[test]
fn validation_rejects_hooks_in_wrong_section() {
    let mut config = cfg_example();
    config.process.hooks.push("openat".to_string());
    assert!(cfg_err(&config).contains("process hook 'openat' is not supported"));

    let mut config = cfg_example();
    config.file.hooks.push("execve".to_string());
    assert!(cfg_err(&config).contains("file hook 'execve' is not supported"));
}

#[test]
fn validation_rejects_inconsistent_file_event_flags() {
    let mut config = cfg_example();
    config.events.file = false;
    assert!(cfg_err(&config).contains("file collection is enabled but file events are disabled"));
}

#[test]
fn validation_validates_supported_network_collection() {
    let mut config = cfg_example();
    config.events.network = true;
    config.network.enabled = true;
    config
        .validate_current_runtime()
        .expect("supported network hooks should validate when consistently enabled");
}

#[test]
fn validation_rejects_unsupported_network_options() {
    let mut config = cfg_example();
    config.network.hooks.push("accept".to_string());
    assert!(cfg_err(&config).contains("network hook 'accept' is not supported"));

    let mut config = cfg_example();
    config.network.collect_dns = true;
    assert!(cfg_err(&config).contains("DNS collection is not supported"));

    let mut config = cfg_example();
    config.network.collect_payload = true;
    assert!(cfg_err(&config).contains("network payload collection is not supported"));
}

#[test]
fn validation_rejects_inconsistent_network_event_flags() {
    let mut config = cfg_example();
    config.events.network = true;
    assert!(cfg_err(&config).contains("network events are enabled but network collection is disabled"));

    let mut config = cfg_example();
    config.network.enabled = true;
    assert!(cfg_err(&config).contains("network collection is enabled but network events are disabled"));
}

#[test]
fn validation_validates_detect_mode() {
    let mut config = cfg_example();
    config.agent.mode = AgentMode::Detect;
    config.validate_current_runtime().expect("detect mode should validate now that alerts are emitted");
}

#[test]
fn validates_enabled_rules() {
    let mut config = cfg_example();
    config.rules.iter_mut().for_each(|rule| rule.enabled = true);
    config.validate_current_runtime().expect("enabled MVP rules should validate");
}

#[test]
fn rejects_duplicate_rule_ids() {
    let mut config = cfg_example();
    config.rules[0].enabled = true;
    config.rules[0].id = "DUPLICATE".to_string();
    config.rules[1].enabled = true;
    config.rules[1].id = "DUPLICATE".to_string();
    assert!(cfg_err(&config).contains("duplicate rule id"));
}

#[test]
fn rejects_invalid_file_operation() {
    let mut config = cfg_example();
    config.rules[1].enabled = true;
    config.rules[1].operations = vec!["file_opne".to_string()];
    assert!(cfg_err(&config).contains("unrecognized operation"));
}

#[test]
fn accepts_short_operation_aliases() {
    let mut config = cfg_example();
    config.rules[1].enabled = true;
    config.rules[1].operations = strings(&["open", "write", "rename", "unlink"]);
    config.validate_current_runtime().expect("short operation aliases should be accepted");
}

#[test]
fn accepts_wildcard_operation() {
    let mut config = cfg_example();
    config.rules[1].enabled = true;
    config.rules[1].operations = vec!["*".to_string()];
    config.validate_current_runtime().expect("wildcard operation should be accepted");
}

#[test]
fn skips_validation_for_disabled_rules() {
    let mut config = cfg_example();
    config.rules[0].enabled = false;
    config.rules[0].process_names.clear();
    config.rules[0].parent_names.clear();
    config.validate_current_runtime().expect("disabled rules should skip semantic validation");
}

#[test]
fn rejects_builtin_prefix_in_user_rules() {
    let mut config = cfg_example();
    config.rules[0].enabled = true;
    config.rules[0].id = "BUILTIN-USER-001".to_string();
    assert!(cfg_err(&config).contains("reserved 'BUILTIN-' prefix"));
}

#[test]
fn example_configuration_validates() {
    cfg_example().validate_current_runtime().expect("example configuration should validate");
}

#[test]
fn duplicate_ids_of_disabled_rules_are_allowed() {
    let mut config = cfg_example();
    config.rules[1].id = config.rules[0].id.clone();
    config.rules[1].enabled = false;
    config.validate_current_runtime().expect("a disabled rule does not clash");
}

#[test]
fn disabled_ebpf_and_file_output_are_rejected() {
    let mut config = cfg_example();
    config.ebpf.enabled = false;
    assert_eq!(config.validate_current_runtime(), Err(ConfigError::EbpfDisabled));
    let mut config = cfg_example();
    config.output.output_type = OutputType::File;
    assert_eq!(cfg_err(&config), "only stdout output is supported by the current runtime");
}

#[test]
fn rule_error_messages_name_the_rule() {
    let mut config = cfg_example();
    config.rules[1].operations = vec!["chmod".to_string()];
    assert_eq!(
        cfg_err(&config),
        "file rule 'EDR-FILE-001' uses unrecognized operation 'chmod'"
    );
}
