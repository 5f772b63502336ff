//! Alert records emitted when a rule matches an event.
use vstd::prelude::*;
use crate::config::{NetworkDirection, RuleAction, RuleConfig, RuleType, Severity};
use crate::normalize::{ProcessRelationship, ProcessStart};
use crate::rules::matchers::{FileFacts, FileFields, NetworkFacts, NetworkFields};
use crate::text::owned;

verus! {

/// A rule match, with the fields of the event that triggered it.
#[derive(Clone, Debug, PartialEq, Eq)]
pub struct Alert {
    pub timestamp_ns: u64,
    pub rule_id: String,
    pub rule_name: String,
    pub rule_type: String,
    pub severity: String,
    pub action: String,
    pub source_event_type: String,
    pub pid: Option<u32>,
    pub tid: Option<u32>,
    pub ppid: Option<u32>,
    pub uid: Option<u32>,
    pub gid: Option<u32>,
    pub comm: Option<String>,
    pub exe_path: Option<String>,
    pub process_name: Option<String>,
    pub parent_name: Option<String>,
    pub path: Option<String>,
    pub operation: Option<String>,
    pub direction: Option<String>,
    pub port: Option<u16>,
    pub addr: Option<String>,
    pub family: Option<String>,
}

/// The content of an alert, every text taken by its characters.
pub struct AlertView {
    pub timestamp_ns: u64,
    pub rule_id: Seq<char>,
    pub rule_name: Seq<char>,
    pub rule_type: Seq<char>,
    pub severity: Seq<char>,
    pub action: Seq<char>,
    pub source_event_type: Seq<char>,
    pub pid: Option<u32>,
    pub tid: Option<u32>,
    pub ppid: Option<u32>,
    pub uid: Option<u32>,
    pub gid: Option<u32>,
    pub comm: Option<Seq<char>>,
    pub exe_path: Option<Seq<char>>,
    pub process_name: Option<Seq<char>>,
    pub parent_name: Option<Seq<char>>,
    pub path: Option<Seq<char>>,
    pub operation: Option<Seq<char>>,
    pub direction: Option<Seq<char>>,
    pub port: Option<u16>,
    pub addr: Option<Seq<char>>,
    pub family: Option<Seq<char>>,
}

/// The characters of an optional string.
pub open spec fn opt_text(o: Option<String>) -> Option<Seq<char>> {
    match o {
        Some(s) => Some(s@),
        None => None,
    }
}

impl View for Alert {
    type V = AlertView;

    open spec fn view(&self) -> AlertView {
        AlertView {
            timestamp_ns: self.timestamp_ns,
            rule_id: self.rule_id@,
            rule_name: self.rule_name@,
            rule_type: self.rule_type@,
            severity: self.severity@,
            action: self.action@,
            source_event_type: self.source_event_type@,
            pid: self.pid,
            tid: self.tid,
            ppid: self.ppid,
            uid: self.uid,
            gid: self.gid,
            comm: opt_text(self.comm),
            exe_path: opt_text(self.exe_path),
            process_name: opt_text(self.process_name),
            parent_name: opt_text(self.parent_name),
            path: opt_text(self.path),
            operation: opt_text(self.operation),
            direction: opt_text(self.direction),
            port: self.port,
            addr: opt_text(self.addr),
            family: opt_text(self.family),
        }
    }
}

/// The name written for each rule type.
pub open spec fn rule_type_text(t: RuleType) -> Seq<char> {
    match t {
        RuleType::Process => "process"@,
        RuleType::File => "file"@,
        RuleType::Network => "network"@,
    }
}

/// The name written for each severity.
pub open spec fn severity_text(s: Severity) -> Seq<char> {
    match s {
        Severity::Low => "low"@,
        Severity::Medium => "medium"@,
        Severity::High => "high"@,
        Severity::Critical => "critical"@,
    }
}

/// The name written for each action.
pub open spec fn action_text(a: RuleAction) -> Seq<char> {
    match a {
        RuleAction::Alert => "alert"@,
    }
}

/// The name written for each direction.
pub open spec fn direction_text(d: NetworkDirection) -> Seq<char> {
    match d {
        NetworkDirection::Inbound => "inbound"@,
        NetworkDirection::Outbound => "outbound"@,
    }
}

fn rule_type_name(rule_type: &RuleType) -> (r: &'static str)
    ensures
        r@ == rule_type_text(*rule_type),
{
    match rule_type {
        RuleType::Process => "process",
        RuleType::File => "file",
        RuleType::Network => "network",
    }
}

fn severity_name(severity: &Severity) -> (r: &'static str)
    ensures
        r@ == severity_text(*severity),
{
    match severity {
        Severity::Low => "low",
        Severity::Medium => "medium",
        Severity::High => "high",
        Severity::Critical => "critical",
    }
}

fn action_name(action: &RuleAction) -> (r: &'static str)
    ensures
        r@ == action_text(*action),
{
    match action {
        RuleAction::Alert => "alert",
    }
}

fn direction_name(direction: NetworkDirection) -> (r: &'static str)
    ensures
        r@ == direction_text(direction),
{
    match direction {
        NetworkDirection::Inbound => "inbound",
        NetworkDirection::Outbound => "outbound",
    }
}

/// An alert for `rule` with no event fields filled in.
pub open spec fn base_view(rule: RuleConfig, timestamp_ns: u64, source: Seq<char>) -> AlertView {
    AlertView {
        timestamp_ns,
        rule_id: rule.id@,
        rule_name: rule.name@,
        rule_type: rule_type_text(rule.rule_type),
        severity: severity_text(rule.severity),
        action: action_text(rule.action),
        source_event_type: source,
        pid: None,
        tid: None,
        ppid: None,
        uid: None,
        gid: None,
        comm: None,
        exe_path: None,
        process_name: None,
        parent_name: None,
        path: None,
        operation: None,
        direction: None,
        port: None,
        addr: None,
        family: None,
    }
}

/// The alert a process rule raises on a process start.
pub open spec fn process_start_view(rule: RuleConfig, start: ProcessStart) -> AlertView {
    AlertView {
        pid: Some(start.pid),
        tid: Some(start.tid),
        ppid: Some(start.ppid),
        uid: Some(start.uid),
        gid: Some(start.gid),
        comm: Some(start.comm@),
        exe_path: Some(start.exe_path@),
        process_name: Some(start.comm@),
        ..base_view(rule, start.timestamp_ns, "process_start"@)
    }
}

/// The alert a process rule raises on a fork relationship.
pub open spec fn process_relationship_view(rule: RuleConfig, rel: ProcessRelationship) -> AlertView {
    AlertView {
        pid: Some(rel.child_pid),
        tid: Some(rel.child_tid),
        ppid: Some(rel.parent_pid),
        uid: Some(rel.uid),
        gid: Some(rel.gid),
        comm: Some(rel.child_comm@),
        process_name: Some(rel.child_comm@),
        parent_name: Some(rel.parent_comm@),
        ..base_view(rule, rel.timestamp_ns, "process_relationship"@)
    }
}

/// The alert a file rule raises for the matched `path`.
pub open spec fn file_view(rule: RuleConfig, f: FileFacts, path: Seq<char>) -> AlertView {
    AlertView {
        pid: Some(f.pid),
        tid: Some(f.tid),
        ppid: Some(f.ppid),
        uid: Some(f.uid),
        gid: Some(f.gid),
        comm: Some(f.comm),
        exe_path: Some(f.exe_path),
        process_name: Some(f.comm),
        path: Some(path),
        operation: Some(f.operation),
        ..base_view(rule, f.timestamp_ns, f.source_event_type)
    }
}

/// The alert a network rule raises.
pub open spec fn network_view(rule: RuleConfig, n: NetworkFacts) -> AlertView {
    AlertView {
        pid: Some(n.pid),
        tid: Some(n.tid),
        ppid: Some(n.ppid),
        uid: Some(n.uid),
        gid: Some(n.gid),
        comm: Some(n.comm),
        exe_path: Some(n.exe_path),
        process_name: Some(n.comm),
        direction: Some(direction_text(n.direction)),
        port: Some(n.port),
        addr: Some(n.addr),
        family: Some(n.family),
        ..base_view(rule, n.timestamp_ns, n.source_event_type)
    }
}

/// An alert for `rule` carrying only the rule's identity and the event's time and type.
pub fn base_alert(rule: &RuleConfig, timestamp_ns: u64, source_event_type: &str) -> (a: Alert)
    ensures
        a@ == base_view(*rule, timestamp_ns, source_event_type@),
{
    Alert {
        timestamp_ns,
        rule_id: rule.id.clone(),
        rule_name: rule.name.clone(),
        rule_type: owned(rule_type_name(&rule.rule_type)),
        severity: owned(severity_name(&rule.severity)),
        action: owned(action_name(&rule.action)),
        source_event_type: owned(source_event_type),
        pid: None,
        tid: None,
        ppid: None,
        uid: None,
        gid: None,
        comm: None,
        exe_path: None,
        process_name: None,
        parent_name: None,
        path: None,
        operation: None,
        direction: None,
        port: None,
        addr: None,
        family: None,
    }
}

/// The alert a process rule raises on a process start.
pub fn process_start_alert(rule: &RuleConfig, start: &ProcessStart) -> (a: Alert)
    ensures
        a@ == process_start_view(*rule, *start),
{
    let mut alert = base_alert(rule, start.timestamp_ns, "process_start");
    alert.pid = Some(start.pid);
    alert.tid = Some(start.tid);
    alert.ppid = Some(start.ppid);
    alert.uid = Some(start.uid);
    alert.gid = Some(start.gid);
    alert.comm = Some(start.comm.clone());
    alert.exe_path = Some(start.exe_path.clone());
    alert.process_name = Some(start.comm.clone());
    alert
}

/// The alert a process rule raises on a fork relationship.
pub fn process_relationship_alert(rule: &RuleConfig, rel: &ProcessRelationship) -> (a: Alert)
    ensures
        a@ == process_relationship_view(*rule, *rel),
{
    let mut alert = base_alert(rule, rel.timestamp_ns, "process_relationship");
    alert.pid = Some(rel.child_pid);
    alert.tid = Some(rel.child_tid);
    alert.ppid = Some(rel.parent_pid);
    alert.uid = Some(rel.uid);
    alert.gid = Some(rel.gid);
    alert.comm = Some(rel.child_comm.clone());
    alert.process_name = Some(rel.child_comm.clone());
    alert.parent_name = Some(rel.parent_comm.clone());
    alert
}

/// The alert a file rule raises for the matched `path`.
pub fn file_alert(rule: &RuleConfig, fields: &FileFields<'_>, path: &str) -> (a: Alert)
    ensures
        a@ == file_view(*rule, fields.facts(), path@),
{
    let mut alert = base_alert(rule, fields.timestamp_ns, fields.source_event_type);
    alert.pid = Some(fields.pid);
    alert.tid = Some(fields.tid);
    alert.ppid = Some(fields.ppid);
    alert.uid = Some(fields.uid);
    alert.gid = Some(fields.gid);
    alert.comm = Some(owned(fields.comm));
    alert.exe_path = Some(owned(fields.exe_path));
    alert.process_name = Some(owned(fields.comm));
    alert.path = Some(owned(path));
    alert.operation = Some(owned(fields.operation));
    alert
}

/// The alert a network rule raises.
pub fn network_alert(rule: &RuleConfig, fields: &NetworkFields<'_>) -> (a: Alert)
    ensures
        a@ == network_view(*rule, fields.facts()),
{
    let mut alert = base_alert(rule, fields.timestamp_ns, fields.source_event_type);
    alert.pid = Some(fields.pid);
    alert.tid = Some(fields.tid);
    alert.ppid = Some(fields.ppid);
    alert.uid = Some(fields.uid);
    alert.gid = Some(fields.gid);
    alert.comm = Some(owned(fields.comm));
    alert.exe_path = Some(owned(fields.exe_path));
    alert.process_name = Some(owned(fields.comm));
    alert.direction = Some(owned(direction_name(fields.direction)));
    alert.port = Some(fields.port);
    alert.addr = Some(owned(fields.addr));
    alert.family = Some(owned(fields.family));
    alert
}

} // verus!
