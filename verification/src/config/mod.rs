//! Configuration model and its validation.
pub mod messages;
pub mod types;
pub mod validation;

pub use types::{
    AgentConfig, AgentMode, Config, DetectionsConfig, EbpfConfig, EventsConfig, FileConfig,
    NetworkConfig, NetworkDetectionRule, NetworkDirection, OutputConfig, OutputFormat, OutputType,
    PerformanceConfig, PersistenceRule, ProcessConfig, RuleAction, RuleConfig, RuleType, Severity,
};
pub use validation::{is_valid_file_operation, validate_rule, ConfigError, RuleError};
