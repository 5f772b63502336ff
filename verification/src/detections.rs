//! Built-in detections that annotate normalized events: persistence-sensitive
//! file changes and suspicious socket ports.
use vstd::prelude::*;
use crate::config::{NetworkDetectionRule, NetworkDirection, PersistenceRule};
use crate::rules::matchers::matches_name;
use crate::rules::matchers;
use crate::text::{contains, ends_with_tail, is_ext_glob, starts_with, text_eq};
use crate::text;

verus! {

/// A detection pattern: `*.ext` matches a path ending in `.ext`; anything
/// else matches a path that contains it.
pub open spec fn loose_pattern_matches(path: Seq<char>, pattern: Seq<char>) -> bool {
    if text::ext_glob(pattern) {
        text::has_suffix(path, pattern.skip(1))
    } else {
        text::has_infix(path, pattern)
    }
}

/// Whether `path` matches a detection pattern.
pub fn matches_loose_pattern(path: &str, pattern: &str) -> (r: bool)
    ensures
        r == loose_pattern_matches(path@, pattern@),
{
    if is_ext_glob(pattern) {
        ends_with_tail(path, pattern, 1)
    } else {
        contains(path, pattern)
    }
}

/// Some prefix of the list starts `path`.
pub open spec fn any_prefix(path: Seq<char>, prefixes: Seq<String>) -> bool {
    exists|i: int| 0 <= i < prefixes.len() && text::has_prefix(path, #[trigger] prefixes[i]@)
}

/// Some detection pattern of the list matches `path`.
pub open spec fn any_loose_pattern(path: Seq<char>, patterns: Seq<String>) -> bool {
    exists|i: int| 0 <= i < patterns.len() && loose_pattern_matches(path, #[trigger] patterns[i]@)
}

/// Whether some prefix of the list starts `path`.
pub fn starts_with_any(path: &str, prefixes: &[String]) -> (r: bool)
    ensures
        r == any_prefix(path@, prefixes@),
{
    let mut i: usize = 0;
    while i < prefixes.len()
        invariant
            i <= prefixes@.len(),
            forall|j: int| 0 <= j < i ==> !text::has_prefix(path@, #[trigger] prefixes@[j]@),
        decreases prefixes@.len() - i,
    {
        if starts_with(path, prefixes[i].as_str()) {
            return true;
        }
        i = i + 1;
    }
    false
}

/// Whether some detection pattern of the list matches `path`.
pub fn matches_any_loose_pattern(path: &str, patterns: &[String]) -> (r: bool)
    ensures
        r == any_loose_pattern(path@, patterns@),
{
    let mut i: usize = 0;
    while i < patterns.len()
        invariant
            i <= patterns@.len(),
            forall|j: int| 0 <= j < i ==> !loose_pattern_matches(path@, #[trigger] patterns@[j]@),
        decreases patterns@.len() - i,
    {
        if matches_loose_pattern(path, patterns[i].as_str()) {
            return true;
        }
        i = i + 1;
    }
    false
}

/// The rule lists `operation`, or the wildcard.
pub open spec fn persistence_operation_listed(ops: Seq<String>, operation: Seq<char>) -> bool {
    exists|i: int| 0 <= i < ops.len() && (#[trigger] ops[i]@ == operation || ops[i]@ == "*"@)
}

/// A persistence rule fires for `path` and `operation`.
pub open spec fn persistence_rule_matches(rule: PersistenceRule, path: Seq<char>, operation: Seq<char>) -> bool {
    &&& persistence_operation_listed(rule.operations@, operation)
    &&& if rule.paths@.len() > 0 && rule.patterns@.len() > 0 {
        any_prefix(path, rule.paths@) && any_loose_pattern(path, rule.patterns@)
    } else if rule.paths@.len() > 0 {
        any_prefix(path, rule.paths@)
    } else if rule.patterns@.len() > 0 {
        any_loose_pattern(path, rule.patterns@)
    } else {
        false
    }
}

/// The name of the first persistence rule that fires.
pub open spec fn first_persistence_match(
    rules: Seq<PersistenceRule>,
    path: Seq<char>,
    operation: Seq<char>,
) -> Option<String>
    decreases rules.len(),
{
    if rules.len() == 0 {
        None
    } else if persistence_rule_matches(rules[0], path, operation) {
        Some(rules[0].name)
    } else {
        first_persistence_match(rules.skip(1), path, operation)
    }
}

fn operation_listed(ops: &[String], operation: &str) -> (r: bool)
    ensures
        r == persistence_operation_listed(ops@, operation@),
{
    let mut i: usize = 0;
    while i < ops.len()
        invariant
            i <= ops@.len(),
            forall|j: int| 0 <= j < i ==> !(#[trigger] ops@[j]@ == operation@ || ops@[j]@ == "*"@),
        decreases ops@.len() - i,
    {
        if text_eq(ops[i].as_str(), operation) || text_eq(ops[i].as_str(), "*") {
            return true;
        }
        i = i + 1;
    }
    false
}

fn persistence_rule_fires(rule: &PersistenceRule, path: &str, operation: &str) -> (r: bool)
    ensures
        r == persistence_rule_matches(*rule, path@, operation@),
{
    if !operation_listed(rule.operations.as_slice(), operation) {
        return false;
    }
    let has_paths = rule.paths.len() != 0;
    let has_patterns = rule.patterns.len() != 0;
    if has_paths && has_patterns {
        starts_with_any(path, rule.paths.as_slice()) && matches_any_loose_pattern(
            path,
            rule.patterns.as_slice(),
        )
    } else if has_paths {
        starts_with_any(path, rule.paths.as_slice())
    } else if has_patterns {
        matches_any_loose_pattern(path, rule.patterns.as_slice())
    } else {
        false
    }
}

/// The name of the first persistence rule that fires for a file operation
/// on `path`; `operation` is a canonical name such as `file_open`.
pub fn check_persistence(path: &str, operation: &str, rules: &[PersistenceRule]) -> (r: Option<String>)
    ensures
        r == first_persistence_match(rules@, path@, operation@),
{
    let mut i: usize = 0;
    assert(rules@.skip(0) =~= rules@);
    while i < rules.len()
        invariant
            i <= rules@.len(),
            first_persistence_match(rules@, path@, operation@) == first_persistence_match(
                rules@.skip(i as int),
                path@,
                operation@,
            ),
        decreases rules@.len() - i,
    {
        let ghost rest = rules@.skip(i as int);
        assert(rest[0] == rules@[i as int]);
        if persistence_rule_fires(&rules[i], path, operation) {
            return Some(rules[i].name.clone());
        }
        assert(rest.skip(1) =~= rules@.skip(i + 1));
        i = i + 1;
    }
    assert(rules@.skip(i as int).len() == 0);
    None
}

/// A port detection fires for a socket operation.
pub open spec fn network_rule_matches(
    rule: NetworkDetectionRule,
    direction: NetworkDirection,
    port: u16,
    process_name: Seq<char>,
) -> bool {
    &&& rule.directions@.contains(direction)
    &&& rule.ports@.contains(port)
    &&& matchers::name_matches(rule.process_names@, process_name)
}

/// The name of the first port detection that fires.
pub open spec fn first_network_match(
    rules: Seq<NetworkDetectionRule>,
    direction: NetworkDirection,
    port: u16,
    process_name: Seq<char>,
) -> Option<String>
    decreases rules.len(),
{
    if rules.len() == 0 {
        None
    } else if network_rule_matches(rules[0], direction, port, process_name) {
        Some(rules[0].name)
    } else {
        first_network_match(rules.skip(1), direction, port, process_name)
    }
}

fn contains_direction(v: &Vec<NetworkDirection>, d: NetworkDirection) -> (r: bool)
    ensures
        r == v@.contains(d),
{
    let mut i: usize = 0;
    while i < v.len()
        invariant
            i <= v@.len(),
            forall|j: int| 0 <= j < i ==> v@[j] != d,
        decreases v@.len() - i,
    {
        if v[i] == d {
            assert(v@[i as int] == d);
            return true;
        }
        i = i + 1;
    }
    false
}

fn contains_port(v: &Vec<u16>, p: u16) -> (r: bool)
    ensures
        r == v@.contains(p),
{
    let mut i: usize = 0;
    while i < v.len()
        invariant
            i <= v@.len(),
            forall|j: int| 0 <= j < i ==> v@[j] != p,
        decreases v@.len() - i,
    {
        if v[i] == p {
            assert(v@[i as int] == p);
            return true;
        }
        i = i + 1;
    }
    false
}

/// The name of the first port detection that fires for a socket operation
/// in `direction` on `port` by `process_name`.
pub fn check_network(
    direction: NetworkDirection,
    port: u16,
    process_name: &str,
    rules: &[NetworkDetectionRule],
) -> (r: Option<String>)
    ensures
        r == first_network_match(rules@, direction, port, process_name@),
{
    let mut i: usize = 0;
    assert(rules@.skip(0) =~= rules@);
    while i < rules.len()
        invariant
            i <= rules@.len(),
            first_network_match(rules@, direction, port, process_name@) == first_network_match(
                rules@.skip(i as int),
                direction,
                port,
                process_name@,
            ),
        decreases rules@.len() - i,
    {
        let ghost rest = rules@.skip(i as int);
        assert(rest[0] == rules@[i as int]);
        let rule = &rules[i];
        if contains_direction(&rule.directions, direction) && contains_port(&rule.ports, port)
            && matches_name(rule.process_names.as_slice(), process_name) {
            return Some(rule.name.clone());
        }
        assert(rest.skip(1) =~= rules@.skip(i + 1));
        i = i + 1;
    }
    assert(rules@.skip(i as int).len() == 0);
    None
}


/// The first port detection that fires is the one named: some detection
/// fires exactly when one is found, and the one found is the first in
/// order that fires.
pub proof fn lemma_first_network_match(
    rules: Seq<NetworkDetectionRule>,
    direction: NetworkDirection,
    port: u16,
    process_name: Seq<char>,
)
    ensures
        first_network_match(rules, direction, port, process_name) is Some <==> exists|i: int|
            0 <= i < rules.len() && #[trigger] network_rule_matches(rules[i], direction, port, process_name),
        forall|i: int|
            0 <= i < rules.len() && #[trigger] network_rule_matches(rules[i], direction, port, process_name)
                && (forall|k: int| 0 <= k < i ==> !network_rule_matches(rules[k], direction, port, process_name))
                ==> first_network_match(rules, direction, port, process_name) == Some(rules[i].name),
    decreases rules.len(),
{
    if rules.len() > 0 {
        let rest = rules.skip(1);
        lemma_first_network_match(rest, direction, port, process_name);
        if first_network_match(rules, direction, port, process_name) is Some {
            if !network_rule_matches(rules[0], direction, port, process_name) {
                let i = choose|i: int|
                    0 <= i < rest.len() && #[trigger] network_rule_matches(rest[i], direction, port, process_name);
                assert(rules[i + 1] == rest[i]);
            }
        } else {
            assert forall|i: int| 0 <= i < rules.len() implies !#[trigger] network_rule_matches(
                rules[i],
                direction,
                port,
                process_name,
            ) by {
                if i > 0 {
                    assert(rules[i] == rest[i - 1]);
                }
            }
        }
        assert forall|i: int|
            0 <= i < rules.len() && #[trigger] network_rule_matches(rules[i], direction, port, process_name)
                && (forall|k: int| 0 <= k < i ==> !network_rule_matches(rules[k], direction, port, process_name))
            implies first_network_match(rules, direction, port, process_name) == Some(rules[i].name) by {
            if i > 0 {
                assert(!network_rule_matches(rules[0], direction, port, process_name));
                assert(rules[i] == rest[i - 1]);
                assert forall|k: int| 0 <= k < i - 1 implies !network_rule_matches(
                    rest[k],
                    direction,
                    port,
                    process_name,
                ) by {
                    assert(rest[k] == rules[k + 1]);
                }
            }
        }
    }
}

} // verus!
