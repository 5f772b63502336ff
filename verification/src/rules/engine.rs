//! The rule engine: built-in rules followed by the configured ones, each
//! evaluated against every normalized event.
use vstd::prelude::*;
use crate::config::{RuleConfig, RuleType};
use crate::config::types;
use crate::normalize::NormalizedEvent;
use crate::rules::alerts::{
    file_alert, network_alert, process_relationship_alert, process_start_alert, Alert, AlertView,
};
use crate::rules::alerts;
use crate::rules::builtins;
use crate::rules::matchers::{
    matches_name, matches_operation, matches_path_rule, FileFields, NetworkFields,
};
use crate::rules::matchers;

verus! {

/// The first of `paths` that the rule's paths and patterns select.
pub open spec fn first_matching_path(paths: Seq<Seq<char>>, rule: RuleConfig) -> Option<Seq<char>>
    decreases paths.len(),
{
    if paths.len() == 0 {
        None
    } else if matchers::path_rule_matches(paths[0], rule.paths@, rule.patterns@) {
        Some(paths[0])
    } else {
        first_matching_path(paths.skip(1), rule)
    }
}

/// The alert `rule` raises on event `e`, if it matches; the rule's
/// `enabled` flag is not consulted here.
pub open spec fn rule_alert(rule: RuleConfig, e: NormalizedEvent) -> Option<AlertView> {
    match rule.rule_type {
        RuleType::Process => match e {
            NormalizedEvent::ProcessStart(start) => if rule.parent_names@.len() != 0
                || !matchers::name_matches(rule.process_names@, start.comm@) {
                None
            } else {
                Some(alerts::process_start_view(rule, start))
            },
            NormalizedEvent::ProcessRelationship(rel) => if !matchers::name_matches(
                rule.process_names@,
                rel.child_comm@,
            ) || !matchers::name_matches(rule.parent_names@, rel.parent_comm@) {
                None
            } else {
                Some(alerts::process_relationship_view(rule, rel))
            },
            _ => None,
        },
        RuleType::File => match matchers::file_event_facts(e) {
            None => None,
            Some(f) => if !matchers::operation_matches(rule.operations@, f.operation) {
                None
            } else {
                match first_matching_path(f.paths, rule) {
                    None => None,
                    Some(path) => Some(alerts::file_view(rule, f, path)),
                }
            },
        },
        RuleType::Network => match matchers::network_event_facts(e) {
            None => None,
            Some(n) => if rule.direction != Some(n.direction) || !rule.ports@.contains(n.port)
                || !matchers::name_matches(rule.process_names@, n.comm) {
                None
            } else {
                Some(alerts::network_view(rule, n))
            },
        },
    }
}

/// The alerts the rules raise on `e`, in rule order; disabled rules raise none.
pub open spec fn alerts_for(rules: Seq<RuleConfig>, e: NormalizedEvent) -> Seq<AlertView>
    decreases rules.len(),
{
    if rules.len() == 0 {
        Seq::empty()
    } else {
        let prev = alerts_for(rules.drop_last(), e);
        let r = rules.last();
        if r.enabled && rule_alert(r, e) is Some {
            prev.push(rule_alert(r, e)->0)
        } else {
            prev
        }
    }
}

/// The views of a sequence of alerts.
pub open spec fn alert_views(v: Seq<Alert>) -> Seq<AlertView> {
    v.map_values(|a: Alert| a@)
}

/// Evaluates built-in and configured rules against normalized events.
pub struct RuleEngine {
    rules: Vec<RuleConfig>,
}

impl View for RuleEngine {
    type V = Seq<RuleConfig>;

    closed spec fn view(&self) -> Seq<RuleConfig> {
        self.rules@
    }
}

/// Whether the paths hold one the rule selects, and the first such.
fn find_matching_path<'a>(paths: &Vec<&'a str>, rule: &RuleConfig) -> (r: Option<&'a str>)
    ensures
        match r {
            Some(p) => first_matching_path(paths@.map_values(|q: &str| q@), *rule) == Some(p@),
            None => first_matching_path(paths@.map_values(|q: &str| q@), *rule) is None,
        },
{
    let ghost all = paths@.map_values(|q: &str| q@);
    let mut i: usize = 0;
    assert(all.skip(0) =~= all);
    while i < paths.len()
        invariant
            i <= paths@.len(),
            all == paths@.map_values(|q: &str| q@),
            first_matching_path(all, *rule) == first_matching_path(all.skip(i as int), *rule),
        decreases paths@.len() - i,
    {
        let ghost rest = all.skip(i as int);
        assert(rest[0] == paths@[i as int]@);
        if matches_path_rule(paths[i], rule.paths.as_slice(), rule.patterns.as_slice()) {
            return Some(paths[i]);
        }
        assert(rest.skip(1) =~= all.skip(i + 1));
        i = i + 1;
    }
    assert(all.skip(i as int).len() == 0);
    None
}

fn evaluate_process_rule(rule: &RuleConfig, event: &NormalizedEvent) -> (r: Option<Alert>)
    requires
        rule.rule_type == RuleType::Process,
    ensures
        match r {
            Some(a) => rule_alert(*rule, *event) == Some(a@),
            None => rule_alert(*rule, *event) is None,
        },
{
    match event {
        NormalizedEvent::ProcessStart(start) => {
            if rule.parent_names.len() != 0 {
                return None;
            }
            if !matches_name(rule.process_names.as_slice(), start.comm.as_str()) {
                return None;
            }
            Some(process_start_alert(rule, start))
        },
        NormalizedEvent::ProcessRelationship(rel) => {
            if !matches_name(rule.process_names.as_slice(), rel.child_comm.as_str()) {
                return None;
            }
            if !matches_name(rule.parent_names.as_slice(), rel.parent_comm.as_str()) {
                return None;
            }
            Some(process_relationship_alert(rule, rel))
        },
        _ => None,
    }
}

fn evaluate_file_fields(rule: &RuleConfig, event: &NormalizedEvent, fields: &FileFields<'_>) -> (r:
    Option<Alert>)
    requires
        rule.rule_type == RuleType::File,
        matchers::file_event_facts(*event) == Some(fields.facts()),
    ensures
        match r {
            Some(a) => rule_alert(*rule, *event) == Some(a@),
            None => rule_alert(*rule, *event) is None,
        },
{
    if !matches_operation(rule.operations.as_slice(), fields.operation) {
        return None;
    }
    match find_matching_path(&fields.paths, rule) {
        Some(path) => Some(file_alert(rule, fields, path)),
        None => None,
    }
}

fn evaluate_file_rule(rule: &RuleConfig, event: &NormalizedEvent) -> (r: Option<Alert>)
    requires
        rule.rule_type == RuleType::File,
    ensures
        match r {
            Some(a) => rule_alert(*rule, *event) == Some(a@),
            None => rule_alert(*rule, *event) is None,
        },
{
    match event {
        NormalizedEvent::FileOpen(file) => evaluate_file_fields(rule, event, &FileFields::from_open(file)),
        NormalizedEvent::FileOpenAt2(file) => evaluate_file_fields(rule, event, &FileFields::from_openat2(file)),
        NormalizedEvent::FileWrite(file) => evaluate_file_fields(rule, event, &FileFields::from_write(file)),
        NormalizedEvent::FileWriteV(file) => evaluate_file_fields(rule, event, &FileFields::from_writev(file)),
        NormalizedEvent::FilePWrite64(file) => evaluate_file_fields(rule, event, &FileFields::from_pwrite64(file)),
        NormalizedEvent::FileRename(file) => evaluate_file_fields(rule, event, &FileFields::from_rename(file)),
        NormalizedEvent::FileRenameAt(file) => evaluate_file_fields(rule, event, &FileFields::from_renameat(file)),
        NormalizedEvent::FileRenameAt2(file) => evaluate_file_fields(rule, event, &FileFields::from_renameat2(file)),
        NormalizedEvent::FileUnlink(file) => evaluate_file_fields(rule, event, &FileFields::from_unlink(file)),
        NormalizedEvent::FileUnlinkAt(file) => evaluate_file_fields(rule, event, &FileFields::from_unlinkat(file)),
        _ => None,
    }
}

fn contains_port(ports: &Vec<u16>, port: u16) -> (r: bool)
    ensures
        r == ports@.contains(port),
{
    let mut i: usize = 0;
    while i < ports.len()
        invariant
            i <= ports@.len(),
            forall|j: int| 0 <= j < i ==> ports@[j] != port,
        decreases ports@.len() - i,
    {
        if ports[i] == port {
            assert(ports@[i as int] == port);
            return true;
        }
        i = i + 1;
    }
    false
}

fn evaluate_network_fields(rule: &RuleConfig, event: &NormalizedEvent, fields: &NetworkFields<'_>) -> (r:
    Option<Alert>)
    requires
        rule.rule_type == RuleType::Network,
        matchers::network_event_facts(*event) == Some(fields.facts()),
    ensures
        match r {
            Some(a) => rule_alert(*rule, *event) == Some(a@),
            None => rule_alert(*rule, *event) is None,
        },
{
    let direction_ok = match rule.direction {
        Some(d) => d == fields.direction,
        None => false,
    };
    if !direction_ok || !contains_port(&rule.ports, fields.port) {
        return None;
    }
    if !matches_name(rule.process_names.as_slice(), fields.comm) {
        return None;
    }
    Some(network_alert(rule, fields))
}

fn evaluate_network_rule(rule: &RuleConfig, event: &NormalizedEvent) -> (r: Option<Alert>)
    requires
        rule.rule_type == RuleType::Network,
    ensures
        match r {
            Some(a) => rule_alert(*rule, *event) == Some(a@),
            None => rule_alert(*rule, *event) is None,
        },
{
    match event {
        NormalizedEvent::NetworkConnect(net) => evaluate_network_fields(rule, event, &NetworkFields::from_connect(net)),
        NormalizedEvent::NetworkBind(net) => evaluate_network_fields(rule, event, &NetworkFields::from_bind(net)),
        NormalizedEvent::NetworkListen(net) => evaluate_network_fields(rule, event, &NetworkFields::from_listen(net)),
        _ => None,
    }
}

/// The alert one rule raises on an event, regardless of whether it is enabled.
pub fn evaluate_rule(rule: &RuleConfig, event: &NormalizedEvent) -> (r: Option<Alert>)
    ensures
        match r {
            Some(a) => rule_alert(*rule, *event) == Some(a@),
            None => rule_alert(*rule, *event) is None,
        },
{
    match rule.rule_type {
        RuleType::Process => evaluate_process_rule(rule, event),
        RuleType::File => evaluate_file_rule(rule, event),
        RuleType::Network => evaluate_network_rule(rule, event),
    }
}

impl RuleEngine {
    /// An engine holding the built-in rules followed by copies of `config_rules`.
    pub fn new(config_rules: &[RuleConfig]) -> (e: Self)
        ensures
            e@.len() == 3 + config_rules@.len(),
            builtins::is_builtin_rule_set(e@.take(3)),
            forall|i: int| 0 <= i < config_rules@.len() ==> types::same_rule(
                #[trigger] e@[3 + i],
                config_rules@[i],
            ),
    {
        let mut rules = builtins::builtin_rules();
        let ghost base = rules@;
        let mut i: usize = 0;
        while i < config_rules.len()
            invariant
                builtins::is_builtin_rule_set(base),
                i <= config_rules@.len(),
                rules@.len() == 3 + i,
                rules@.take(3) == base,
                forall|k: int| 0 <= k < i ==> types::same_rule(
                    #[trigger] rules@[3 + k],
                    config_rules@[k],
                ),
            decreases config_rules@.len() - i,
        {
            let ghost before = rules@;
            rules.push(config_rules[i].copy());
            assert(rules@.take(3) =~= before.take(3));
            i = i + 1;
        }
        assert(rules@.take(3) =~= base);
        RuleEngine { rules }
    }

    /// The alerts raised on `event` by the enabled rules, in rule order.
    pub fn evaluate(&self, event: &NormalizedEvent) -> (r: Vec<Alert>)
        ensures
            alert_views(r@) == alerts_for(self@, *event),
    {
        let mut out: Vec<Alert> = Vec::new();
        let mut i: usize = 0;
        while i < self.rules.len()
            invariant
                i <= self.rules@.len(),
                alert_views(out@) == alerts_for(self.rules@.take(i as int), *event),
            decreases self.rules@.len() - i,
        {
            let rule = &self.rules[i];
            let ghost taken = self.rules@.take(i as int + 1);
            assert(taken.drop_last() =~= self.rules@.take(i as int));
            assert(taken.last() == self.rules@[i as int]);
            if rule.enabled {
                match evaluate_rule(rule, event) {
                    Some(alert) => {
                        out.push(alert);
                        assert(alert_views(out@) =~= alerts_for(taken, *event));
                    },
                    None => {},
                }
            }
            i = i + 1;
        }
        assert(self.rules@.take(self.rules@.len() as int) =~= self.rules@);
        out
    }
}

/// Evaluating two lists of rules one after the other raises the alerts of
/// the first list, then those of the second.
pub proof fn lemma_alerts_for_concat(a: Seq<RuleConfig>, b: Seq<RuleConfig>, e: NormalizedEvent)
    ensures
        alerts_for(a + b, e) == alerts_for(a, e) + alerts_for(b, e),
    decreases b.len(),
{
    if b.len() == 0 {
        assert(a + b =~= a);
        assert(alerts_for(b, e) =~= Seq::<AlertView>::empty());
        assert(alerts_for(a, e) + alerts_for(b, e) =~= alerts_for(a, e));
    } else {
        lemma_alerts_for_concat(a, b.drop_last(), e);
        assert((a + b).drop_last() =~= a + b.drop_last());
        assert((a + b).last() == b.last());
        let prev = alerts_for(a, e) + alerts_for(b.drop_last(), e);
        if b.last().enabled && rule_alert(b.last(), e) is Some {
            assert(prev.push(rule_alert(b.last(), e)->0) =~= alerts_for(a, e) + alerts_for(
                b.drop_last(),
                e,
            ).push(rule_alert(b.last(), e)->0));
        }
    }
}

/// Configured rules never take a built-in alert away: an engine raises the
/// alerts of its built-in rules first, then those of the configured rules.
pub proof fn law_builtin_alerts_come_first(
    builtin: Seq<RuleConfig>,
    configured: Seq<RuleConfig>,
    e: NormalizedEvent,
)
    ensures
        alerts_for(builtin + configured, e) == alerts_for(builtin, e) + alerts_for(configured, e),
{
    lemma_alerts_for_concat(builtin, configured, e);
}

/// A disabled rule is inert: taking it out of the list changes no alert.
pub proof fn law_disabled_rule_is_inert(
    before: Seq<RuleConfig>,
    rule: RuleConfig,
    after: Seq<RuleConfig>,
    e: NormalizedEvent,
)
    requires
        !rule.enabled,
    ensures
        alerts_for(before.push(rule) + after, e) == alerts_for(before + after, e),
{
    lemma_alerts_for_concat(before.push(rule), after, e);
    lemma_alerts_for_concat(before, after, e);
    assert(before.push(rule).drop_last() =~= before);
}

/// Some enabled rule of the list raises alert `a` on the event.
pub open spec fn raised_by_enabled_rule(rules: Seq<RuleConfig>, e: NormalizedEvent, a: AlertView) -> bool {
    exists|j: int| 0 <= j < rules.len() && rules[j].enabled && #[trigger] rule_alert(rules[j], e) == Some(a)
}

/// Every alert comes from an enabled rule that matches the event, so there
/// are never more alerts than rules.
pub proof fn law_alerts_come_from_enabled_rules(rules: Seq<RuleConfig>, e: NormalizedEvent)
    ensures
        alerts_for(rules, e).len() <= rules.len(),
        forall|i: int|
            0 <= i < alerts_for(rules, e).len() ==> raised_by_enabled_rule(
                rules,
                e,
                #[trigger] alerts_for(rules, e)[i],
            ),
    decreases rules.len(),
{
    if rules.len() > 0 {
        let init = rules.drop_last();
        law_alerts_come_from_enabled_rules(init, e);
        let prev = alerts_for(init, e);
        assert forall|i: int| 0 <= i < alerts_for(rules, e).len() implies raised_by_enabled_rule(
            rules,
            e,
            #[trigger] alerts_for(rules, e)[i],
        ) by {
            if i < prev.len() {
                assert(alerts_for(rules, e)[i] == prev[i]);
                assert(raised_by_enabled_rule(init, e, alerts_for(init, e)[i]));
                let j = choose|j: int|
                    0 <= j < init.len() && init[j].enabled && #[trigger] rule_alert(init[j], e)
                        == Some(prev[i]);
                assert(rules[j] == init[j]);
            } else {
                let last = rules.len() - 1;
                assert(rules[last] == rules.last());
                assert(rules[last].enabled);
                assert(rule_alert(rules[last], e) == Some(alerts_for(rules, e)[i]));
            }
        }
    }
}

/// An engine built from any configured rules still evaluates the built-in
/// rules, and evaluates the configured rules as given.
pub proof fn law_engine_keeps_builtins(engine_rules: Seq<RuleConfig>, configured: Seq<RuleConfig>, e: NormalizedEvent)
    requires
        engine_rules.len() == 3 + configured.len(),
        builtins::is_builtin_rule_set(engine_rules.take(3)),
        forall|i: int| 0 <= i < configured.len() ==> #[trigger] engine_rules[3 + i] == configured[i],
    ensures
        alerts_for(engine_rules, e) == alerts_for(engine_rules.take(3), e) + alerts_for(configured, e),
{
    assert forall|k: int| 3 <= k < engine_rules.len() implies engine_rules[k] == configured[k - 3] by {
        assert(engine_rules[3 + (k - 3)] == configured[k - 3]);
    }
    assert(engine_rules =~= engine_rules.take(3) + configured);
    lemma_alerts_for_concat(engine_rules.take(3), configured, e);
}


/// A network rule raises an alert on a socket event exactly when the
/// event's direction is the rule's, its port is one of the rule's ports,
/// and the rule names no process or names the event's process: connects
/// are outbound and match on the remote port; binds and listens are
/// inbound and match on the local port.  Any other event raises nothing.
pub proof fn law_network_rule_fires_on_direction_port_and_name(rule: RuleConfig, e: NormalizedEvent)
    requires
        rule.rule_type == RuleType::Network,
    ensures
        e matches NormalizedEvent::NetworkConnect(c) ==> (rule_alert(rule, e) is Some <==> (rule.direction
            == Some(types::NetworkDirection::Outbound) && rule.ports@.contains(c.remote_port) && (
        rule.process_names@.len() == 0 || exists|j: int|
            0 <= j < rule.process_names@.len() && #[trigger] rule.process_names@[j]@ == c.comm@))),
        e matches NormalizedEvent::NetworkBind(b) ==> (rule_alert(rule, e) is Some <==> (rule.direction
            == Some(types::NetworkDirection::Inbound) && rule.ports@.contains(b.local_port) && (
        rule.process_names@.len() == 0 || exists|j: int|
            0 <= j < rule.process_names@.len() && #[trigger] rule.process_names@[j]@ == b.comm@))),
        e matches NormalizedEvent::NetworkListen(l) ==> (rule_alert(rule, e) is Some <==> (rule.direction
            == Some(types::NetworkDirection::Inbound) && rule.ports@.contains(l.local_port) && (
        rule.process_names@.len() == 0 || exists|j: int|
            0 <= j < rule.process_names@.len() && #[trigger] rule.process_names@[j]@ == l.comm@))),
        !(e is NetworkConnect || e is NetworkBind || e is NetworkListen) ==> rule_alert(rule, e) is None,
{
}

} // verus!
