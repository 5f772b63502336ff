//! Semantic validation of rules and of the whole configuration against what
//! the current runtime supports.
use vstd::prelude::*;
use crate::config::types::{Config, OutputType, RuleAction, RuleConfig, RuleType};
use crate::text::{starts_with, text_eq};
use crate::text;

verus! {

/// Why a rule is rejected.
#[derive(Clone, Debug, PartialEq, Eq)]
pub enum RuleError {
    UnsupportedAction(String),
    ProcessWithoutNames(String),
    ProcessWithForeignFields(String),
    FileWithoutPaths(String),
    FileWithoutOperations(String),
    FileUnknownOperation(String, String),
    FileWithForeignFields(String),
    NetworkWithoutDirection(String),
    NetworkWithoutPorts(String),
    NetworkWithForeignFields(String),
}

/// Why a configuration is rejected by the current runtime.
#[derive(Clone, Debug, PartialEq, Eq)]
pub enum ConfigError {
    EbpfDisabled,
    ProcessCollectionDisabled,
    UnsupportedProcessHook(String),
    UnsupportedFileHook(String),
    UnsupportedProcessDetails,
    FileEventsWithoutCollection,
    FileCollectionWithoutEvents,
    UnsupportedNetworkHook(String),
    NetworkEventsWithoutCollection,
    NetworkCollectionWithoutEvents,
    DnsUnsupported,
    PayloadUnsupported,
    ReservedRuleId(String),
    DuplicateRuleId(String),
    InvalidRule(RuleError),
    UnsupportedOutput,
}

/// The operation names a file rule may use.
pub open spec fn valid_file_operation(op: Seq<char>) -> bool {
    ||| op == "file_open"@
    ||| op == "file_write"@
    ||| op == "file_rename"@
    ||| op == "file_unlink"@
    ||| op == "open"@
    ||| op == "write"@
    ||| op == "rename"@
    ||| op == "unlink"@
    ||| op == "*"@
}

/// Whether `op` is an operation name a file rule may use.
pub fn is_valid_file_operation(op: &str) -> (r: bool)
    ensures
        r == valid_file_operation(op@),
{
    text_eq(op, "file_open") || text_eq(op, "file_write") || text_eq(op, "file_rename")
        || text_eq(op, "file_unlink") || text_eq(op, "open") || text_eq(op, "write")
        || text_eq(op, "rename") || text_eq(op, "unlink") || text_eq(op, "*")
}

/// The first operation of `ops` that a file rule may not use.
pub open spec fn first_invalid_operation(ops: Seq<String>) -> Option<String>
    decreases ops.len(),
{
    if ops.len() == 0 {
        None
    } else if !valid_file_operation(ops[0]@) {
        Some(ops[0])
    } else {
        first_invalid_operation(ops.skip(1))
    }
}

/// The error `validate_rule` reports for `r`, if any.
pub open spec fn rule_error(r: RuleConfig) -> Option<RuleError> {
    if r.action != RuleAction::Alert {
        Some(RuleError::UnsupportedAction(r.id))
    } else {
        match r.rule_type {
            RuleType::Process => if r.process_names@.len() == 0 && r.parent_names@.len() == 0 {
                Some(RuleError::ProcessWithoutNames(r.id))
            } else if r.paths@.len() != 0 || r.patterns@.len() != 0 || r.operations@.len() != 0
                || r.direction is Some || r.ports@.len() != 0 {
                Some(RuleError::ProcessWithForeignFields(r.id))
            } else {
                None
            },
            RuleType::File => if r.paths@.len() == 0 && r.patterns@.len() == 0 {
                Some(RuleError::FileWithoutPaths(r.id))
            } else if r.operations@.len() == 0 {
                Some(RuleError::FileWithoutOperations(r.id))
            } else if first_invalid_operation(r.operations@) is Some {
                Some(
                    RuleError::FileUnknownOperation(
                        r.id,
                        first_invalid_operation(r.operations@)->0,
                    ),
                )
            } else if r.parent_names@.len() != 0 || r.process_names@.len() != 0
                || r.direction is Some || r.ports@.len() != 0 {
                Some(RuleError::FileWithForeignFields(r.id))
            } else {
                None
            },
            RuleType::Network => if r.direction is None {
                Some(RuleError::NetworkWithoutDirection(r.id))
            } else if r.ports@.len() == 0 {
                Some(RuleError::NetworkWithoutPorts(r.id))
            } else if r.parent_names@.len() != 0 || r.paths@.len() != 0 || r.patterns@.len() != 0
                || r.operations@.len() != 0 {
                Some(RuleError::NetworkWithForeignFields(r.id))
            } else {
                None
            },
        }
    }
}

fn find_invalid_operation(ops: &Vec<String>) -> (r: Option<String>)
    ensures
        r == first_invalid_operation(ops@),
{
    let mut i: usize = 0;
    assert(ops@.skip(0) =~= ops@);
    while i < ops.len()
        invariant
            i <= ops@.len(),
            first_invalid_operation(ops@) == first_invalid_operation(ops@.skip(i as int)),
        decreases ops@.len() - i,
    {
        let ghost rest = ops@.skip(i as int);
        assert(rest[0] == ops@[i as int]);
        if !is_valid_file_operation(ops[i].as_str()) {
            return Some(ops[i].clone());
        }
        assert(rest.skip(1) =~= ops@.skip(i + 1));
        i = i + 1;
    }
    assert(ops@.skip(i as int).len() == 0);
    None
}

/// Checks that a rule is well-formed for its type.
pub fn validate_rule(rule: &RuleConfig) -> (r: Result<(), RuleError>)
    ensures
        r == (match rule_error(*rule) {
            None => Ok(()),
            Some(e) => Err(e),
        }),
{
    if rule.action != RuleAction::Alert {
        return Err(RuleError::UnsupportedAction(rule.id.clone()));
    }
    match rule.rule_type {
        RuleType::Process => {
            if rule.process_names.len() == 0 && rule.parent_names.len() == 0 {
                return Err(RuleError::ProcessWithoutNames(rule.id.clone()));
            }
            if rule.paths.len() != 0 || rule.patterns.len() != 0 || rule.operations.len() != 0
                || rule.direction.is_some() || rule.ports.len() != 0 {
                return Err(RuleError::ProcessWithForeignFields(rule.id.clone()));
            }
        },
        RuleType::File => {
            if rule.paths.len() == 0 && rule.patterns.len() == 0 {
                return Err(RuleError::FileWithoutPaths(rule.id.clone()));
            }
            if rule.operations.len() == 0 {
                return Err(RuleError::FileWithoutOperations(rule.id.clone()));
            }
            match find_invalid_operation(&rule.operations) {
                Some(op) => {
                    return Err(RuleError::FileUnknownOperation(rule.id.clone(), op));
                },
                None => {},
            }
            if rule.parent_names.len() != 0 || rule.process_names.len() != 0
                || rule.direction.is_some() || rule.ports.len() != 0 {
                return Err(RuleError::FileWithForeignFields(rule.id.clone()));
            }
        },
        RuleType::Network => {
            if rule.direction.is_none() {
                return Err(RuleError::NetworkWithoutDirection(rule.id.clone()));
            }
            if rule.ports.len() == 0 {
                return Err(RuleError::NetworkWithoutPorts(rule.id.clone()));
            }
            if rule.parent_names.len() != 0 || rule.paths.len() != 0 || rule.patterns.len() != 0
                || rule.operations.len() != 0 {
                return Err(RuleError::NetworkWithForeignFields(rule.id.clone()));
            }
        },
    }
    Ok(())
}

/// Process hooks the runtime can attach.
pub open spec fn supported_process_hook(h: Seq<char>) -> bool {
    h == "execve"@ || h == "fork"@ || h == "exit"@ || h == "execveat"@
}

/// File hooks the runtime can attach.
pub open spec fn supported_file_hook(h: Seq<char>) -> bool {
    ||| h == "openat"@
    ||| h == "openat2"@
    ||| h == "write"@
    ||| h == "writev"@
    ||| h == "pwrite64"@
    ||| h == "rename"@
    ||| h == "renameat"@
    ||| h == "renameat2"@
    ||| h == "unlink"@
    ||| h == "unlinkat"@
}

/// Network hooks the runtime can attach.
pub open spec fn supported_network_hook(h: Seq<char>) -> bool {
    h == "connect"@ || h == "bind"@ || h == "listen"@
}

/// Which hook family a hook list is checked against.
#[derive(Clone, Copy, PartialEq, Eq, Structural)]
pub enum HookFamily {
    Process,
    File,
    Network,
}

pub open spec fn hook_supported(family: HookFamily, h: Seq<char>) -> bool {
    match family {
        HookFamily::Process => supported_process_hook(h),
        HookFamily::File => supported_file_hook(h),
        HookFamily::Network => supported_network_hook(h),
    }
}

/// The first hook of `hooks` the runtime cannot attach for `family`.
pub open spec fn first_unsupported_hook(family: HookFamily, hooks: Seq<String>) -> Option<String>
    decreases hooks.len(),
{
    if hooks.len() == 0 {
        None
    } else if !hook_supported(family, hooks[0]@) {
        Some(hooks[0])
    } else {
        first_unsupported_hook(family, hooks.skip(1))
    }
}

fn is_supported_hook(family: HookFamily, h: &str) -> (r: bool)
    ensures
        r == hook_supported(family, h@),
{
    match family {
        HookFamily::Process => text_eq(h, "execve") || text_eq(h, "fork") || text_eq(h, "exit")
            || text_eq(h, "execveat"),
        HookFamily::File => text_eq(h, "openat") || text_eq(h, "openat2") || text_eq(h, "write")
            || text_eq(h, "writev") || text_eq(h, "pwrite64") || text_eq(h, "rename") || text_eq(
            h,
            "renameat",
        ) || text_eq(h, "renameat2") || text_eq(h, "unlink") || text_eq(h, "unlinkat"),
        HookFamily::Network => text_eq(h, "connect") || text_eq(h, "bind") || text_eq(
            h,
            "listen",
        ),
    }
}

fn find_unsupported_hook(family: HookFamily, hooks: &Vec<String>) -> (r: Option<String>)
    ensures
        r == first_unsupported_hook(family, hooks@),
{
    let mut i: usize = 0;
    assert(hooks@.skip(0) =~= hooks@);
    while i < hooks.len()
        invariant
            i <= hooks@.len(),
            first_unsupported_hook(family, hooks@) == first_unsupported_hook(
                family,
                hooks@.skip(i as int),
            ),
        decreases hooks@.len() - i,
    {
        let ghost rest = hooks@.skip(i as int);
        assert(rest[0] == hooks@[i as int]);
        if !is_supported_hook(family, hooks[i].as_str()) {
            return Some(hooks[i].clone());
        }
        assert(rest.skip(1) =~= hooks@.skip(i + 1));
        i = i + 1;
    }
    assert(hooks@.skip(i as int).len() == 0);
    None
}

/// Identifiers starting with this prefix are reserved for the built-in rules.
pub open spec fn reserved_prefix() -> Seq<char> {
    "BUILTIN-"@
}

/// Some enabled rule before position `i` carries the identifier `id`.
pub open spec fn enabled_id_before(rules: Seq<RuleConfig>, i: int, id: Seq<char>) -> bool {
    exists|j: int| 0 <= j < i && #[trigger] rules[j].enabled && rules[j].id@ == id
}

/// The first problem among the rules from position `i` on; disabled rules are
/// not checked.
pub open spec fn rules_error_from(rules: Seq<RuleConfig>, i: int) -> Option<ConfigError>
    decreases rules.len() - i,
{
    if i < 0 || i >= rules.len() {
        None
    } else if !rules[i].enabled {
        rules_error_from(rules, i + 1)
    } else if text::has_prefix(rules[i].id@, reserved_prefix()) {
        Some(ConfigError::ReservedRuleId(rules[i].id))
    } else if enabled_id_before(rules, i, rules[i].id@) {
        Some(ConfigError::DuplicateRuleId(rules[i].id))
    } else if rule_error(rules[i]) is Some {
        Some(ConfigError::InvalidRule(rule_error(rules[i])->0))
    } else {
        rules_error_from(rules, i + 1)
    }
}

/// The first reason the current runtime rejects `c`, in the order the checks run.
pub open spec fn runtime_error(c: Config) -> Option<ConfigError> {
    if !c.ebpf.enabled {
        Some(ConfigError::EbpfDisabled)
    } else if !c.events.process || !c.process.enabled {
        Some(ConfigError::ProcessCollectionDisabled)
    } else if first_unsupported_hook(HookFamily::Process, c.process.hooks@) is Some {
        Some(
            ConfigError::UnsupportedProcessHook(
                first_unsupported_hook(HookFamily::Process, c.process.hooks@)->0,
            ),
        )
    } else if first_unsupported_hook(HookFamily::File, c.file.hooks@) is Some {
        Some(
            ConfigError::UnsupportedFileHook(
                first_unsupported_hook(HookFamily::File, c.file.hooks@)->0,
            ),
        )
    } else if c.process.collect_args || c.process.collect_env || c.process.collect_cwd {
        Some(ConfigError::UnsupportedProcessDetails)
    } else if c.events.file && !c.file.enabled {
        Some(ConfigError::FileEventsWithoutCollection)
    } else if c.file.enabled && !c.events.file {
        Some(ConfigError::FileCollectionWithoutEvents)
    } else if first_unsupported_hook(HookFamily::Network, c.network.hooks@) is Some {
        Some(
            ConfigError::UnsupportedNetworkHook(
                first_unsupported_hook(HookFamily::Network, c.network.hooks@)->0,
            ),
        )
    } else if c.events.network && !c.network.enabled {
        Some(ConfigError::NetworkEventsWithoutCollection)
    } else if c.network.enabled && !c.events.network {
        Some(ConfigError::NetworkCollectionWithoutEvents)
    } else if c.network.collect_dns {
        Some(ConfigError::DnsUnsupported)
    } else if c.network.collect_payload {
        Some(ConfigError::PayloadUnsupported)
    } else if rules_error_from(c.rules@, 0) is Some {
        rules_error_from(c.rules@, 0)
    } else if c.output.output_type != OutputType::Stdout {
        Some(ConfigError::UnsupportedOutput)
    } else {
        None
    }
}

fn has_enabled_id_before(rules: &Vec<RuleConfig>, i: usize) -> (r: bool)
    requires
        i < rules@.len(),
    ensures
        r == enabled_id_before(rules@, i as int, rules@[i as int].id@),
{
    let mut j: usize = 0;
    while j < i
        invariant
            i < rules@.len(),
            j <= i,
            forall|k: int| 0 <= k < j ==> !(#[trigger] rules@[k].enabled && rules@[k].id@
                == rules@[i as int].id@),
        decreases i - j,
    {
        if rules[j].enabled && text_eq(rules[j].id.as_str(), rules[i].id.as_str()) {
            return true;
        }
        j = j + 1;
    }
    false
}

fn check_rules(rules: &Vec<RuleConfig>) -> (r: Result<(), ConfigError>)
    ensures
        r == (match rules_error_from(rules@, 0) {
            None => Ok(()),
            Some(e) => Err(e),
        }),
{
    let mut i: usize = 0;
    while i < rules.len()
        invariant
            i <= rules@.len(),
            rules_error_from(rules@, 0) == rules_error_from(rules@, i as int),
        decreases rules@.len() - i,
    {
        let rule = &rules[i];
        if rule.enabled {
            if starts_with(rule.id.as_str(), "BUILTIN-") {
                return Err(ConfigError::ReservedRuleId(rule.id.clone()));
            }
            if has_enabled_id_before(rules, i) {
                return Err(ConfigError::DuplicateRuleId(rule.id.clone()));
            }
            match validate_rule(rule) {
                Err(e) => {
                    return Err(ConfigError::InvalidRule(e));
                },
                Ok(()) => {},
            }
        }
        i = i + 1;
    }
    Ok(())
}

impl Config {
    /// Checks that the configuration asks only for what the current runtime
    /// supports; the first failing check is reported.
    pub fn validate_current_runtime(&self) -> (r: Result<(), ConfigError>)
        ensures
            r == (match runtime_error(*self) {
                None => Ok(()),
                Some(e) => Err(e),
            }),
    {
        if !self.ebpf.enabled {
            return Err(ConfigError::EbpfDisabled);
        }
        if !self.events.process || !self.process.enabled {
            return Err(ConfigError::ProcessCollectionDisabled);
        }
        match find_unsupported_hook(HookFamily::Process, &self.process.hooks) {
            Some(h) => {
                return Err(ConfigError::UnsupportedProcessHook(h));
            },
            None => {},
        }
        match find_unsupported_hook(HookFamily::File, &self.file.hooks) {
            Some(h) => {
                return Err(ConfigError::UnsupportedFileHook(h));
            },
            None => {},
        }
        if self.process.collect_args || self.process.collect_env || self.process.collect_cwd {
            return Err(ConfigError::UnsupportedProcessDetails);
        }
        if self.events.file && !self.file.enabled {
            return Err(ConfigError::FileEventsWithoutCollection);
        }
        if self.file.enabled && !self.events.file {
            return Err(ConfigError::FileCollectionWithoutEvents);
        }
        match find_unsupported_hook(HookFamily::Network, &self.network.hooks) {
            Some(h) => {
                return Err(ConfigError::UnsupportedNetworkHook(h));
            },
            None => {},
        }
        if self.events.network && !self.network.enabled {
            return Err(ConfigError::NetworkEventsWithoutCollection);
        }
        if self.network.enabled && !self.events.network {
            return Err(ConfigError::NetworkCollectionWithoutEvents);
        }
        if self.network.collect_dns {
            return Err(ConfigError::DnsUnsupported);
        }
        if self.network.collect_payload {
            return Err(ConfigError::PayloadUnsupported);
        }
        check_rules(&self.rules)?;
        if self.output.output_type != OutputType::Stdout {
            return Err(ConfigError::UnsupportedOutput);
        }
        Ok(())
    }
}


/// An accepted rule is an alerting rule that sets the match fields of its
/// own type and none of another's: a process rule names processes or
/// parents and nothing else; a file rule has paths or patterns and
/// operations, and no process names, parent names, direction or ports; a
/// network rule has a direction and ports, and no parent names, paths,
/// patterns or operations.
pub proof fn law_accepted_rules_use_their_own_fields(r: RuleConfig)
    requires
        rule_error(r) is None,
    ensures
        r.action == RuleAction::Alert,
        r.rule_type == RuleType::Process ==> (r.process_names@.len() != 0 || r.parent_names@.len() != 0)
            && r.paths@.len() == 0 && r.patterns@.len() == 0 && r.operations@.len() == 0
            && r.direction is None && r.ports@.len() == 0,
        r.rule_type == RuleType::File ==> (r.paths@.len() != 0 || r.patterns@.len() != 0)
            && r.operations@.len() != 0 && r.parent_names@.len() == 0 && r.process_names@.len() == 0
            && r.direction is None && r.ports@.len() == 0,
        r.rule_type == RuleType::Network ==> r.direction is Some && r.ports@.len() != 0
            && r.parent_names@.len() == 0 && r.paths@.len() == 0 && r.patterns@.len() == 0
            && r.operations@.len() == 0,
{
}

/// A file rule that sets process names, parent names, a direction or ports
/// is refused; once its action, paths and operations are in order, the
/// error is that it holds match fields of another type.
pub proof fn law_file_rule_with_foreign_fields_is_refused(r: RuleConfig)
    requires
        r.rule_type == RuleType::File,
        r.parent_names@.len() != 0 || r.process_names@.len() != 0 || r.direction is Some
            || r.ports@.len() != 0,
    ensures
        rule_error(r) is Some,
        r.action == RuleAction::Alert && (r.paths@.len() != 0 || r.patterns@.len() != 0)
            && r.operations@.len() != 0 && first_invalid_operation(r.operations@) is None
            ==> rule_error(r) == Some(RuleError::FileWithForeignFields(r.id)),
{
}

} // verus!
