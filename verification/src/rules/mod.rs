//! Rule evaluation over normalized events.
pub mod alerts;
pub mod builtins;
pub mod engine;
pub mod matchers;

pub use alerts::{
    base_alert, file_alert, network_alert, process_relationship_alert, process_start_alert, Alert,
};
pub use builtins::{builtin_rules, file_operations};
pub use engine::{evaluate_rule, RuleEngine};
pub use matchers::{
    canonical_operation, matches_name, matches_operation, matches_path_rule, matches_pattern,
    FileFields, NetworkFields,
};
