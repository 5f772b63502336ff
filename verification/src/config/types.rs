//! The runtime configuration: agent identity, collection switches, rules,
//! built-in detections, output and performance settings.
use vstd::prelude::*;

verus! {

/// Top-level configuration file.
#[derive(Debug, PartialEq, Eq)]
pub struct Config {
    pub agent: AgentConfig,
    pub ebpf: EbpfConfig,
    pub events: EventsConfig,
    pub process: ProcessConfig,
    pub file: FileConfig,
    pub network: NetworkConfig,
    pub rules: Vec<RuleConfig>,
    pub detections: DetectionsConfig,
    pub output: OutputConfig,
    pub performance: PerformanceConfig,
}

#[derive(Clone, Debug, PartialEq, Eq)]
pub struct AgentConfig {
    pub id: String,
    pub mode: AgentMode,
    pub log_level: String,
}

#[derive(Clone, Copy, Debug, PartialEq, Eq, Structural)]
pub enum AgentMode {
    Monitor,
    Detect,
}

#[derive(Debug, PartialEq, Eq)]
pub struct EbpfConfig {
    pub enabled: bool,
    pub buffer_size: u32,
}

#[derive(Debug, PartialEq, Eq)]
pub struct EventsConfig {
    pub process: bool,
    pub file: bool,
    pub network: bool,
}

#[derive(Debug, PartialEq, Eq)]
pub struct ProcessConfig {
    pub enabled: bool,
    pub hooks: Vec<String>,
    pub collect_args: bool,
    pub collect_env: bool,
    pub collect_cwd: bool,
}

/// File collection settings, including the userspace watch/exclude filter.
#[derive(Debug, PartialEq, Eq)]
pub struct FileConfig {
    pub enabled: bool,
    pub hooks: Vec<String>,
    pub watch_paths: Vec<String>,
    pub watch_patterns: Vec<String>,
    pub exclude_paths: Vec<String>,
}

#[derive(Debug, PartialEq, Eq)]
pub struct NetworkConfig {
    pub enabled: bool,
    pub hooks: Vec<String>,
    pub collect_dns: bool,
    pub collect_payload: bool,
}

/// One `[[rules]]` entry.
#[derive(Clone, Debug, PartialEq, Eq)]
pub struct RuleConfig {
    pub id: String,
    pub name: String,
    pub enabled: bool,
    pub rule_type: RuleType,
    pub severity: Severity,
    pub action: RuleAction,
    pub parent_names: Vec<String>,
    pub process_names: Vec<String>,
    pub paths: Vec<String>,
    pub patterns: Vec<String>,
    pub operations: Vec<String>,
    pub direction: Option<NetworkDirection>,
    pub ports: Vec<u16>,
}

#[derive(Clone, Copy, Debug, PartialEq, Eq, Structural)]
pub enum RuleType {
    Process,
    File,
    Network,
}

#[derive(Clone, Copy, Debug, PartialEq, Eq, Structural)]
pub enum Severity {
    Low,
    Medium,
    High,
    Critical,
}

#[derive(Clone, Copy, Debug, PartialEq, Eq, Structural)]
pub enum RuleAction {
    Alert,
}

/// Direction of a socket operation as rules and detections see it.
#[derive(Clone, Copy, Debug, PartialEq, Eq, Structural)]
pub enum NetworkDirection {
    Inbound,
    Outbound,
}

#[derive(Debug, PartialEq, Eq)]
pub struct OutputConfig {
    pub output_type: OutputType,
    pub format: OutputFormat,
    pub path: Option<String>,
}

#[derive(Clone, Copy, Debug, PartialEq, Eq, Structural)]
pub enum OutputType {
    File,
    Stdout,
}

#[derive(Clone, Copy, Debug, PartialEq, Eq, Structural)]
pub enum OutputFormat {
    Json,
}

#[derive(Debug, PartialEq, Eq)]
pub struct PerformanceConfig {
    pub max_events_per_second: u32,
    pub drop_when_full: bool,
}

/// Built-in persistence and port detections.
#[derive(Debug, PartialEq, Eq)]
pub struct DetectionsConfig {
    pub persistence: Vec<PersistenceRule>,
    pub network: Vec<NetworkDetectionRule>,
}

impl Default for DetectionsConfig {
    fn default() -> (d: Self)
        ensures
            d.persistence@.len() == 0,
            d.network@.len() == 0,
    {
        DetectionsConfig { persistence: Vec::new(), network: Vec::new() }
    }
}

/// A persistence detection: a path/pattern match on selected file operations.
#[derive(Debug, PartialEq, Eq)]
pub struct PersistenceRule {
    pub name: String,
    pub paths: Vec<String>,
    pub patterns: Vec<String>,
    pub operations: Vec<String>,
}

/// A suspicious-port detection.
#[derive(Debug, PartialEq, Eq)]
pub struct NetworkDetectionRule {
    pub name: String,
    pub directions: Vec<NetworkDirection>,
    pub ports: Vec<u16>,
    pub process_names: Vec<String>,
}

/// The texts held by a vector of strings.
pub open spec fn texts(v: Seq<String>) -> Seq<Seq<char>> {
    v.map_values(|s: String| s@)
}

/// `a` and `b` agree on every field, vectors compared by their contents.
pub open spec fn same_rule(a: RuleConfig, b: RuleConfig) -> bool {
    &&& a.id == b.id
    &&& a.name == b.name
    &&& a.enabled == b.enabled
    &&& a.rule_type == b.rule_type
    &&& a.severity == b.severity
    &&& a.action == b.action
    &&& a.parent_names@ == b.parent_names@
    &&& a.process_names@ == b.process_names@
    &&& a.paths@ == b.paths@
    &&& a.patterns@ == b.patterns@
    &&& a.operations@ == b.operations@
    &&& a.direction == b.direction
    &&& a.ports@ == b.ports@
}

/// A copy of a vector of strings with the same contents.
pub fn copy_strings(v: &Vec<String>) -> (r: Vec<String>)
    ensures
        r@ == v@,
{
    let mut r: Vec<String> = Vec::new();
    let mut i: usize = 0;
    while i < v.len()
        invariant
            i <= v@.len(),
            r@ == v@.take(i as int),
        decreases v@.len() - i,
    {
        r.push(v[i].clone());
        i = i + 1;
        assert(r@ =~= v@.take(i as int));
    }
    assert(v@.take(v@.len() as int) =~= v@);
    r
}

/// A copy of a vector of ports with the same contents.
pub fn copy_ports(v: &Vec<u16>) -> (r: Vec<u16>)
    ensures
        r@ == v@,
{
    let mut r: Vec<u16> = Vec::new();
    let mut i: usize = 0;
    while i < v.len()
        invariant
            i <= v@.len(),
            r@ == v@.take(i as int),
        decreases v@.len() - i,
    {
        r.push(v[i]);
        i = i + 1;
        assert(r@ =~= v@.take(i as int));
    }
    assert(v@.take(v@.len() as int) =~= v@);
    r
}

impl RuleConfig {
    /// A field-for-field copy of this rule.
    pub fn copy(&self) -> (r: RuleConfig)
        ensures
            same_rule(r, *self),
    {
        RuleConfig {
            id: self.id.clone(),
            name: self.name.clone(),
            enabled: self.enabled,
            rule_type: self.rule_type,
            severity: self.severity,
            action: self.action,
            parent_names: copy_strings(&self.parent_names),
            process_names: copy_strings(&self.process_names),
            paths: copy_strings(&self.paths),
            patterns: copy_strings(&self.patterns),
            operations: copy_strings(&self.operations),
            direction: self.direction,
            ports: copy_ports(&self.ports),
        }
    }
}

} // verus!
