//! Human-readable messages for configuration and rule errors.
use vstd::prelude::*;
use crate::config::validation::{ConfigError, RuleError};
use crate::text::owned;

verus! {

/// The message reported for a rule error.
pub open spec fn rule_error_text(e: RuleError) -> Seq<char> {
    match e {
        RuleError::UnsupportedAction(id) => "rule '"@ + id@ + "' uses an unsupported action"@,
        RuleError::ProcessWithoutNames(id) => "process rule '"@ + id@
            + "' must define process_names or parent_names"@,
        RuleError::ProcessWithForeignFields(id) => "process rule '"@ + id@
            + "' contains non-process match fields"@,
        RuleError::FileWithoutPaths(id) => "file rule '"@ + id@ + "' must define paths or patterns"@,
        RuleError::FileWithoutOperations(id) => "file rule '"@ + id@ + "' must define operations"@,
        RuleError::FileUnknownOperation(id, op) => "file rule '"@ + id@
            + "' uses unrecognized operation '"@ + op@ + "'"@,
        RuleError::FileWithForeignFields(id) => "file rule '"@ + id@
            + "' contains non-file match fields"@,
        RuleError::NetworkWithoutDirection(id) => "network rule '"@ + id@
            + "' must define direction"@,
        RuleError::NetworkWithoutPorts(id) => "network rule '"@ + id@ + "' must define ports"@,
        RuleError::NetworkWithForeignFields(id) => "network rule '"@ + id@
            + "' contains non-network match fields"@,
    }
}

/// The message reported for a configuration error.
pub open spec fn config_error_text(e: ConfigError) -> Seq<char> {
    match e {
        ConfigError::EbpfDisabled => "eBPF is disabled by config"@,
        ConfigError::ProcessCollectionDisabled =>
            "process event collection must be enabled for the current runtime"@,
        ConfigError::UnsupportedProcessHook(h) => "process hook '"@ + h@
            + "' is not supported by the current runtime"@,
        ConfigError::UnsupportedFileHook(h) => "file hook '"@ + h@
            + "' is not supported by the current runtime"@,
        ConfigError::UnsupportedProcessDetails =>
            "process argument, environment, and cwd collection are not supported by the current runtime"@,
        ConfigError::FileEventsWithoutCollection =>
            "file events are enabled but file collection is disabled"@,
        ConfigError::FileCollectionWithoutEvents =>
            "file collection is enabled but file events are disabled"@,
        ConfigError::UnsupportedNetworkHook(h) => "network hook '"@ + h@
            + "' is not supported by the current runtime"@,
        ConfigError::NetworkEventsWithoutCollection =>
            "network events are enabled but network collection is disabled"@,
        ConfigError::NetworkCollectionWithoutEvents =>
            "network collection is enabled but network events are disabled"@,
        ConfigError::DnsUnsupported => "DNS collection is not supported by the current runtime"@,
        ConfigError::PayloadUnsupported =>
            "network payload collection is not supported by the current runtime"@,
        ConfigError::ReservedRuleId(id) => "rule '"@ + id@ + "' uses the reserved 'BUILTIN-' prefix"@,
        ConfigError::DuplicateRuleId(id) => "duplicate rule id '"@ + id@ + "'"@,
        ConfigError::InvalidRule(r) => rule_error_text(r),
        ConfigError::UnsupportedOutput => "only stdout output is supported by the current runtime"@,
    }
}

/// `a`, then `b`, then `c`.
fn join3(a: &str, b: &str, c: &str) -> (s: String)
    ensures
        s@ == a@ + b@ + c@,
{
    let mut s = owned(a);
    s.append(b);
    s.append(c);
    s
}

impl RuleError {
    /// The message for this error.
    pub fn message(&self) -> (s: String)
        ensures
            s@ == rule_error_text(*self),
    {
        match self {
            RuleError::UnsupportedAction(id) => join3(
                "rule '",
                id.as_str(),
                "' uses an unsupported action",
            ),
            RuleError::ProcessWithoutNames(id) => join3(
                "process rule '",
                id.as_str(),
                "' must define process_names or parent_names",
            ),
            RuleError::ProcessWithForeignFields(id) => join3(
                "process rule '",
                id.as_str(),
                "' contains non-process match fields",
            ),
            RuleError::FileWithoutPaths(id) => join3(
                "file rule '",
                id.as_str(),
                "' must define paths or patterns",
            ),
            RuleError::FileWithoutOperations(id) => join3(
                "file rule '",
                id.as_str(),
                "' must define operations",
            ),
            RuleError::FileUnknownOperation(id, op) => {
                let mut s = join3("file rule '", id.as_str(), "' uses unrecognized operation '");
                s.append(op.as_str());
                s.append("'");
                s
            },
            RuleError::FileWithForeignFields(id) => join3(
                "file rule '",
                id.as_str(),
                "' contains non-file match fields",
            ),
            RuleError::NetworkWithoutDirection(id) => join3(
                "network rule '",
                id.as_str(),
                "' must define direction",
            ),
            RuleError::NetworkWithoutPorts(id) => join3(
                "network rule '",
                id.as_str(),
                "' must define ports",
            ),
            RuleError::NetworkWithForeignFields(id) => join3(
                "network rule '",
                id.as_str(),
                "' contains non-network match fields",
            ),
        }
    }
}

impl ConfigError {
    /// The message for this error.
    pub fn message(&self) -> (s: String)
        ensures
            s@ == config_error_text(*self),
    {
        match self {
            ConfigError::EbpfDisabled => owned("eBPF is disabled by config"),
            ConfigError::ProcessCollectionDisabled => owned(
                "process event collection must be enabled for the current runtime",
            ),
            ConfigError::UnsupportedProcessHook(h) => join3(
                "process hook '",
                h.as_str(),
                "' is not supported by the current runtime",
            ),
            ConfigError::UnsupportedFileHook(h) => join3(
                "file hook '",
                h.as_str(),
                "' is not supported by the current runtime",
            ),
            ConfigError::UnsupportedProcessDetails => owned(
                "process argument, environment, and cwd collection are not supported by the current runtime",
            ),
            ConfigError::FileEventsWithoutCollection => owned(
                "file events are enabled but file collection is disabled",
            ),
            ConfigError::FileCollectionWithoutEvents => owned(
                "file collection is enabled but file events are disabled",
            ),
            ConfigError::UnsupportedNetworkHook(h) => join3(
                "network hook '",
                h.as_str(),
                "' is not supported by the current runtime",
            ),
            ConfigError::NetworkEventsWithoutCollection => owned(
                "network events are enabled but network collection is disabled",
            ),
            ConfigError::NetworkCollectionWithoutEvents => owned(
                "network collection is enabled but network events are disabled",
            ),
            ConfigError::DnsUnsupported => owned(
                "DNS collection is not supported by the current runtime",
            ),
            ConfigError::PayloadUnsupported => owned(
                "network payload collection is not supported by the current runtime",
            ),
            ConfigError::ReservedRuleId(id) => join3(
                "rule '",
                id.as_str(),
                "' uses the reserved 'BUILTIN-' prefix",
            ),
            ConfigError::DuplicateRuleId(id) => join3("duplicate rule id '", id.as_str(), "'"),
            ConfigError::InvalidRule(r) => r.message(),
            ConfigError::UnsupportedOutput => owned(
                "only stdout output is supported by the current runtime",
            ),
        }
    }
}

} // verus!
