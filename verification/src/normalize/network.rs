//! Normalization of socket records: enrichment, address text and port
//! detections.
use vstd::prelude::*;
use crate::abi::{NetworkBindEvent, NetworkConnectEvent, NetworkListenEvent};
use crate::config::{NetworkDetectionRule, NetworkDirection};
use crate::detections;
use crate::normalize::address::{network_addr, network_family};
use crate::normalize::address;
use crate::normalize::helpers::{detect_for_network, enrich_from_table_or_comm};
use crate::normalize::helpers;
use crate::normalize::types::{NetworkBind, NetworkConnect, NetworkListen, NormalizedEvent};
use crate::process_table::{ProcessRecord, ProcessTable};
use crate::text;

verus! {

/// The `NetworkConnect` event reported for a socket record.
pub open spec fn network_connect_reported(
    n: NetworkConnect,
    event: NetworkConnectEvent,
    records: Map<u64, ProcessRecord>,
    rules: Seq<NetworkDetectionRule>,
) -> bool {
    &&& n.pid == event.header.pid
    &&& n.tid == event.header.tid
    &&& n.uid == event.header.uid
    &&& n.gid == event.header.gid
    &&& n.timestamp_ns == event.header.timestamp_ns
    &&& helpers::enriched(
        records,
        event.header.pid,
        event.header.tid,
        text::fixed_text(event.comm@),
        n.comm@,
        n.exe_path@,
        n.ppid,
    )
    &&& n.family@ == address::family_name(event.family)
    &&& n.socket_fd == event.socket_fd
    &&& n.remote_addr@ == address::address_text(event.family, event.ipv4_addr, event.ipv6_addr@)
    &&& n.remote_port == event.port
    &&& (n.alert, n.detection_type) == helpers::detection_result(
        detections::first_network_match(rules, NetworkDirection::Outbound, event.port, n.comm@),
    )
}

/// What normalizing a `NetworkConnectEvent` gives: always the reported event.
pub open spec fn network_connect_result(
    event: NetworkConnectEvent,
    records: Map<u64, ProcessRecord>,
    rules: Seq<NetworkDetectionRule>,
    r: Option<NormalizedEvent>,
) -> bool {
    r matches Some(NormalizedEvent::NetworkConnect(n)) && network_connect_reported(n, event, records, rules)
}

/// Enrich and annotate a `NetworkConnectEvent`; always reported.
pub fn normalize_network_connect(
    event: &NetworkConnectEvent,
    table: &mut ProcessTable,
    detections: &[NetworkDetectionRule],
) -> (r: Option<NormalizedEvent>)
    ensures
        *final(table) == *old(table),
        network_connect_result(*event, old(table).records(), detections@, r),
{
    let (comm, exe_path, ppid) = enrich_from_table_or_comm(&event.header, table, &event.comm);
    let (alert, detection_type) = detect_for_network(
        NetworkDirection::Outbound,
        event.port,
        comm.as_str(),
        detections,
    );
    Some(
        NormalizedEvent::NetworkConnect(
            NetworkConnect {
                pid: event.header.pid,
                tid: event.header.tid,
                ppid,
                uid: event.header.uid,
                gid: event.header.gid,
                comm,
                exe_path,
                family: network_family(event.family),
                socket_fd: event.socket_fd,
                remote_addr: network_addr(event.family, event.ipv4_addr, &event.ipv6_addr),
                remote_port: event.port,
                alert,
                detection_type,
                timestamp_ns: event.header.timestamp_ns,
            },
        ),
    )
}

/// The `NetworkBind` event reported for a socket record.
pub open spec fn network_bind_reported(
    n: NetworkBind,
    event: NetworkBindEvent,
    records: Map<u64, ProcessRecord>,
    rules: Seq<NetworkDetectionRule>,
) -> bool {
    &&& n.pid == event.header.pid
    &&& n.tid == event.header.tid
    &&& n.uid == event.header.uid
    &&& n.gid == event.header.gid
    &&& n.timestamp_ns == event.header.timestamp_ns
    &&& helpers::enriched(
        records,
        event.header.pid,
        event.header.tid,
        text::fixed_text(event.comm@),
        n.comm@,
        n.exe_path@,
        n.ppid,
    )
    &&& n.family@ == address::family_name(event.family)
    &&& n.socket_fd == event.socket_fd
    &&& n.local_addr@ == address::address_text(event.family, event.ipv4_addr, event.ipv6_addr@)
    &&& n.local_port == event.port
    &&& (n.alert, n.detection_type) == helpers::detection_result(
        detections::first_network_match(rules, NetworkDirection::Inbound, event.port, n.comm@),
    )
}

/// What normalizing a `NetworkBindEvent` gives: always the reported event.
pub open spec fn network_bind_result(
    event: NetworkBindEvent,
    records: Map<u64, ProcessRecord>,
    rules: Seq<NetworkDetectionRule>,
    r: Option<NormalizedEvent>,
) -> bool {
    r matches Some(NormalizedEvent::NetworkBind(n)) && network_bind_reported(n, event, records, rules)
}

/// Enrich and annotate a `NetworkBindEvent`; always reported.
pub fn normalize_network_bind(
    event: &NetworkBindEvent,
    table: &mut ProcessTable,
    detections: &[NetworkDetectionRule],
) -> (r: Option<NormalizedEvent>)
    ensures
        *final(table) == *old(table),
        network_bind_result(*event, old(table).records(), detections@, r),
{
    let (comm, exe_path, ppid) = enrich_from_table_or_comm(&event.header, table, &event.comm);
    let (alert, detection_type) = detect_for_network(
        NetworkDirection::Inbound,
        event.port,
        comm.as_str(),
        detections,
    );
    Some(
        NormalizedEvent::NetworkBind(
            NetworkBind {
                pid: event.header.pid,
                tid: event.header.tid,
                ppid,
                uid: event.header.uid,
                gid: event.header.gid,
                comm,
                exe_path,
                family: network_family(event.family),
                socket_fd: event.socket_fd,
                local_addr: network_addr(event.family, event.ipv4_addr, &event.ipv6_addr),
                local_port: event.port,
                alert,
                detection_type,
                timestamp_ns: event.header.timestamp_ns,
            },
        ),
    )
}

/// The `NetworkListen` event reported for a socket record.
pub open spec fn network_listen_reported(
    n: NetworkListen,
    event: NetworkListenEvent,
    records: Map<u64, ProcessRecord>,
    rules: Seq<NetworkDetectionRule>,
) -> bool {
    &&& n.pid == event.header.pid
    &&& n.tid == event.header.tid
    &&& n.uid == event.header.uid
    &&& n.gid == event.header.gid
    &&& n.timestamp_ns == event.header.timestamp_ns
    &&& helpers::enriched(
        records,
        event.header.pid,
        event.header.tid,
        text::fixed_text(event.comm@),
        n.comm@,
        n.exe_path@,
        n.ppid,
    )
    &&& n.family@ == address::family_name(event.family)
    &&& n.socket_fd == event.socket_fd
    &&& n.local_addr@ == address::address_text(event.family, event.ipv4_addr, event.ipv6_addr@)
    &&& n.local_port == event.port
    &&& n.backlog == event.backlog
    &&& (n.alert, n.detection_type) == helpers::detection_result(
        detections::first_network_match(rules, NetworkDirection::Inbound, event.port, n.comm@),
    )
}

/// What normalizing a `NetworkListenEvent` gives: always the reported event.
pub open spec fn network_listen_result(
    event: NetworkListenEvent,
    records: Map<u64, ProcessRecord>,
    rules: Seq<NetworkDetectionRule>,
    r: Option<NormalizedEvent>,
) -> bool {
    r matches Some(NormalizedEvent::NetworkListen(n)) && network_listen_reported(n, event, records, rules)
}

/// Enrich and annotate a `NetworkListenEvent`; always reported.
pub fn normalize_network_listen(
    event: &NetworkListenEvent,
    table: &mut ProcessTable,
    detections: &[NetworkDetectionRule],
) -> (r: Option<NormalizedEvent>)
    ensures
        *final(table) == *old(table),
        network_listen_result(*event, old(table).records(), detections@, r),
{
    let (comm, exe_path, ppid) = enrich_from_table_or_comm(&event.header, table, &event.comm);
    let (alert, detection_type) = detect_for_network(
        NetworkDirection::Inbound,
        event.port,
        comm.as_str(),
        detections,
    );
    Some(
        NormalizedEvent::NetworkListen(
            NetworkListen {
                pid: event.header.pid,
                tid: event.header.tid,
                ppid,
                uid: event.header.uid,
                gid: event.header.gid,
                comm,
                exe_path,
                family: network_family(event.family),
                socket_fd: event.socket_fd,
                local_addr: network_addr(event.family, event.ipv4_addr, &event.ipv6_addr),
                local_port: event.port,
                backlog: event.backlog,
                alert,
                detection_type,
                timestamp_ns: event.header.timestamp_ns,
            },
        ),
    )
}


/// A port detection with direction `d`, port `port` among its ports, and no
/// process names or `comm` among them.
pub open spec fn port_detection_fires(
    rule: NetworkDetectionRule,
    d: NetworkDirection,
    port: u16,
    comm: Seq<char>,
) -> bool {
    &&& rule.directions@.contains(d)
    &&& rule.ports@.contains(port)
    &&& (rule.process_names@.len() == 0 || exists|j: int|
        0 <= j < rule.process_names@.len() && #[trigger] rule.process_names@[j]@ == comm)
}

/// The detection a socket event carries: it alerts exactly when some port
/// detection for direction `d` fires for the port and the process, and then
/// names the first such detection; else it names none.
pub open spec fn detection_is(
    alert: bool,
    detection_type: Option<String>,
    rules: Seq<NetworkDetectionRule>,
    d: NetworkDirection,
    port: u16,
    comm: Seq<char>,
) -> bool {
    &&& alert <==> exists|i: int| 0 <= i < rules.len() && #[trigger] port_detection_fires(rules[i], d, port, comm)
    &&& !alert ==> detection_type is None
    &&& forall|i: int|
        0 <= i < rules.len() && #[trigger] port_detection_fires(rules[i], d, port, comm) && (forall|k: int|
            0 <= k < i ==> !port_detection_fires(rules[k], d, port, comm)) ==> detection_type == Some(
            rules[i].name,
        )
}

proof fn lemma_detection_is(
    alert: bool,
    detection_type: Option<String>,
    rules: Seq<NetworkDetectionRule>,
    d: NetworkDirection,
    port: u16,
    comm: Seq<char>,
)
    requires
        (alert, detection_type) == helpers::detection_result(detections::first_network_match(rules, d, port, comm)),
    ensures
        detection_is(alert, detection_type, rules, d, port, comm),
{
    detections::lemma_first_network_match(rules, d, port, comm);
    assert forall|i: int| 0 <= i < rules.len() implies (#[trigger] port_detection_fires(rules[i], d, port, comm)
        <==> detections::network_rule_matches(rules[i], d, port, comm)) by {}
    if alert {
        let i = choose|i: int| 0 <= i < rules.len() && #[trigger] detections::network_rule_matches(rules[i], d, port, comm);
        assert(port_detection_fires(rules[i], d, port, comm));
    } else {
        assert forall|i: int| 0 <= i < rules.len() implies !#[trigger] port_detection_fires(rules[i], d, port, comm) by {
            assert(!detections::network_rule_matches(rules[i], d, port, comm));
        }
    }
    assert forall|i: int|
        0 <= i < rules.len() && #[trigger] port_detection_fires(rules[i], d, port, comm) && (forall|k: int|
            0 <= k < i ==> !port_detection_fires(rules[k], d, port, comm)) implies detection_type == Some(
            rules[i].name,
        ) by {
        assert(detections::network_rule_matches(rules[i], d, port, comm));
        assert forall|k: int| 0 <= k < i implies !detections::network_rule_matches(rules[k], d, port, comm) by {
            assert(!port_detection_fires(rules[k], d, port, comm));
        }
    }
}

/// A connect is an outbound socket operation: its detection is the first
/// port detection for outbound traffic that fires for its remote port and
/// its process.
pub proof fn law_connect_is_checked_as_outbound(
    event: NetworkConnectEvent,
    records: Map<u64, ProcessRecord>,
    rules: Seq<NetworkDetectionRule>,
    r: Option<NormalizedEvent>,
)
    requires
        network_connect_result(event, records, rules, r),
    ensures
        r matches Some(NormalizedEvent::NetworkConnect(n)) && n.remote_port == event.port && detection_is(
            n.alert,
            n.detection_type,
            rules,
            NetworkDirection::Outbound,
            event.port,
            n.comm@,
        ),
{
    let n = r->0->NetworkConnect_0;
    lemma_detection_is(n.alert, n.detection_type, rules, NetworkDirection::Outbound, event.port, n.comm@);
}

/// A bind is an inbound socket operation: its detection is the first port
/// detection for inbound traffic that fires for its local port and its
/// process.
pub proof fn law_bind_is_checked_as_inbound(
    event: NetworkBindEvent,
    records: Map<u64, ProcessRecord>,
    rules: Seq<NetworkDetectionRule>,
    r: Option<NormalizedEvent>,
)
    requires
        network_bind_result(event, records, rules, r),
    ensures
        r matches Some(NormalizedEvent::NetworkBind(n)) && n.local_port == event.port && detection_is(
            n.alert,
            n.detection_type,
            rules,
            NetworkDirection::Inbound,
            event.port,
            n.comm@,
        ),
{
    let n = r->0->NetworkBind_0;
    lemma_detection_is(n.alert, n.detection_type, rules, NetworkDirection::Inbound, event.port, n.comm@);
}

/// A listen, like a bind, is an inbound socket operation: its detection is
/// the first port detection for inbound traffic that fires for its local
/// port and its process.
pub proof fn law_listen_is_checked_as_inbound(
    event: NetworkListenEvent,
    records: Map<u64, ProcessRecord>,
    rules: Seq<NetworkDetectionRule>,
    r: Option<NormalizedEvent>,
)
    requires
        network_listen_result(event, records, rules, r),
    ensures
        r matches Some(NormalizedEvent::NetworkListen(n)) && n.local_port == event.port && detection_is(
            n.alert,
            n.detection_type,
            rules,
            NetworkDirection::Inbound,
            event.port,
            n.comm@,
        ),
{
    let n = r->0->NetworkListen_0;
    lemma_detection_is(n.alert, n.detection_type, rules, NetworkDirection::Inbound, event.port, n.comm@);
}

} // verus!
