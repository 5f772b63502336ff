//! Rules that are always evaluated in addition to the configured ones.
use vstd::prelude::*;
use crate::config::{NetworkDirection, RuleAction, RuleConfig, RuleType, Severity};
use crate::config::types;
use crate::config::validation;
use crate::text::owned;

verus! {

/// The characters of each string slice.
pub open spec fn lit_texts(v: Seq<&str>) -> Seq<Seq<char>> {
    v.map_values(|s: &str| s@)
}

/// Owned copies of the given strings, in order.
pub fn strings(items: &[&str]) -> (r: Vec<String>)
    ensures
        types::texts(r@) == lit_texts(items@),
{
    let mut r: Vec<String> = Vec::new();
    let mut i: usize = 0;
    while i < items.len()
        invariant
            i <= items@.len(),
            r@.len() == i,
            forall|j: int| 0 <= j < i ==> #[trigger] r@[j]@ == items@[j]@,
        decreases items@.len() - i,
    {
        r.push(owned(items[i]));
        i = i + 1;
    }
    assert(types::texts(r@) =~= lit_texts(items@));
    r
}

/// The operations the built-in file rules watch.
pub open spec fn builtin_file_operations() -> Seq<Seq<char>> {
    seq!["file_write"@, "file_rename"@, "file_unlink"@]
}

/// The operations the built-in file rules watch.
pub fn file_operations() -> (r: Vec<String>)
    ensures
        types::texts(r@) == builtin_file_operations(),
{
    let r = strings(&["file_write", "file_rename", "file_unlink"]);
    assert(lit_texts(seq!["file_write", "file_rename", "file_unlink"]) =~= builtin_file_operations());
    r
}

/// `r` is a file rule of the built-in set.
pub open spec fn builtin_file_rule(
    r: RuleConfig,
    id: Seq<char>,
    name: Seq<char>,
    paths: Seq<Seq<char>>,
    patterns: Seq<Seq<char>>,
) -> bool {
    &&& r.id@ == id
    &&& r.name@ == name
    &&& r.enabled
    &&& r.rule_type == RuleType::File
    &&& r.severity == Severity::High
    &&& r.action == RuleAction::Alert
    &&& r.parent_names@.len() == 0
    &&& r.process_names@.len() == 0
    &&& types::texts(r.paths@) == paths
    &&& types::texts(r.patterns@) == patterns
    &&& types::texts(r.operations@) == builtin_file_operations()
    &&& r.direction is None
    &&& r.ports@.len() == 0
}

/// The built-in rules, in evaluation order: systemd units, cron
/// configuration, and suspicious outbound ports.
pub open spec fn is_builtin_rule_set(rules: Seq<RuleConfig>) -> bool {
    &&& rules.len() == 3
    &&& builtin_file_rule(
        rules[0],
        "BUILTIN-FILE-SYSTEMD-001"@,
        "Systemd service modified"@,
        seq!["/etc/systemd/system/"@, "/usr/lib/systemd/system/"@, "/run/systemd/system/"@],
        seq!["*.service"@],
    )
    &&& builtin_file_rule(
        rules[1],
        "BUILTIN-FILE-CRON-001"@,
        "Cron configuration modified"@,
        seq!["/etc/cron.d/"@, "/etc/cron.daily/"@, "/etc/crontab"@],
        seq![],
    )
    &&& rules[2].id@ == "BUILTIN-NET-OUTBOUND-001"@
    &&& rules[2].name@ == "Suspicious outbound port"@
    &&& rules[2].enabled
    &&& rules[2].rule_type == RuleType::Network
    &&& rules[2].severity == Severity::Medium
    &&& rules[2].action == RuleAction::Alert
    &&& rules[2].parent_names@.len() == 0
    &&& rules[2].process_names@.len() == 0
    &&& rules[2].paths@.len() == 0
    &&& rules[2].patterns@.len() == 0
    &&& rules[2].operations@.len() == 0
    &&& rules[2].direction == Some(NetworkDirection::Outbound)
    &&& rules[2].ports@ == seq![4444u16, 1337u16, 31337u16]
}

/// The built-in rules.
pub fn builtin_rules() -> (r: Vec<RuleConfig>)
    ensures
        is_builtin_rule_set(r@),
{
    let systemd_paths = strings(
        &["/etc/systemd/system/", "/usr/lib/systemd/system/", "/run/systemd/system/"],
    );
    let systemd_patterns = strings(&["*.service"]);
    let cron_paths = strings(&["/etc/cron.d/", "/etc/cron.daily/", "/etc/crontab"]);
    let mut ports: Vec<u16> = Vec::new();
    ports.push(4444);
    ports.push(1337);
    ports.push(31337);
    proof {
        assert(lit_texts(seq!["/etc/systemd/system/", "/usr/lib/systemd/system/", "/run/systemd/system/"])
            =~= seq!["/etc/systemd/system/"@, "/usr/lib/systemd/system/"@, "/run/systemd/system/"@]);
        assert(lit_texts(seq!["*.service"]) =~= seq!["*.service"@]);
        assert(lit_texts(seq!["/etc/cron.d/", "/etc/cron.daily/", "/etc/crontab"])
            =~= seq!["/etc/cron.d/"@, "/etc/cron.daily/"@, "/etc/crontab"@]);
        assert(ports@ =~= seq![4444u16, 1337u16, 31337u16]);
    }
    let systemd = RuleConfig {
        id: owned("BUILTIN-FILE-SYSTEMD-001"),
        name: owned("Systemd service modified"),
        enabled: true,
        rule_type: RuleType::File,
        severity: Severity::High,
        action: RuleAction::Alert,
        parent_names: Vec::new(),
        process_names: Vec::new(),
        paths: systemd_paths,
        patterns: systemd_patterns,
        operations: file_operations(),
        direction: None,
        ports: Vec::new(),
    };
    let cron = RuleConfig {
        id: owned("BUILTIN-FILE-CRON-001"),
        name: owned("Cron configuration modified"),
        enabled: true,
        rule_type: RuleType::File,
        severity: Severity::High,
        action: RuleAction::Alert,
        parent_names: Vec::new(),
        process_names: Vec::new(),
        paths: cron_paths,
        patterns: Vec::new(),
        operations: file_operations(),
        direction: None,
        ports: Vec::new(),
    };
    let outbound = RuleConfig {
        id: owned("BUILTIN-NET-OUTBOUND-001"),
        name: owned("Suspicious outbound port"),
        enabled: true,
        rule_type: RuleType::Network,
        severity: Severity::Medium,
        action: RuleAction::Alert,
        parent_names: Vec::new(),
        process_names: Vec::new(),
        paths: Vec::new(),
        patterns: Vec::new(),
        operations: Vec::new(),
        direction: Some(NetworkDirection::Outbound),
        ports,
    };
    let mut rules: Vec<RuleConfig> = Vec::new();
    rules.push(systemd);
    rules.push(cron);
    rules.push(outbound);
    proof {
        assert(types::texts(rules@[1].patterns@) =~= seq![]);
        assert(types::texts(rules@[0].patterns@) =~= seq!["*.service"@]);
    }
    rules
}

/// The built-in rules pass the validation that configured rules must pass.
pub proof fn law_builtin_rules_validate(rules: Seq<RuleConfig>)
    requires
        is_builtin_rule_set(rules),
    ensures
        forall|i: int| 0 <= i < 3 ==> validation::rule_error(#[trigger] rules[i]) is None,
{
    assert forall|i: int| 0 <= i < 2 implies validation::rule_error(#[trigger] rules[i]) is None by {
        let ops = rules[i].operations@;
        assert(types::texts(ops) == builtin_file_operations());
        assert(ops.len() == 3);
        assert(ops[0]@ == "file_write"@);
        assert(ops[1]@ == "file_rename"@);
        assert(ops[2]@ == "file_unlink"@);
        assert(ops.skip(1).skip(1).skip(1).len() == 0);
        assert(ops.skip(1)[0] == ops[1]);
        assert(ops.skip(1).skip(1)[0] == ops[2]);
        assert(validation::first_invalid_operation(ops.skip(1).skip(1).skip(1)) is None);
        assert(validation::first_invalid_operation(ops.skip(1).skip(1)) is None);
        assert(validation::first_invalid_operation(ops.skip(1)) is None);
        assert(validation::first_invalid_operation(ops) is None);
        assert(types::texts(rules[i].paths@).len() == 3);
    }
}

} // verus!
