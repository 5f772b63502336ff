//! Socket-syscall records.
use vstd::prelude::*;
use crate::abi::codec::{
    read_array, read_i32, read_i64, read_u16, read_u32, read_u64, write_bytes, write_u16,
    write_u32, write_u64, write_zeros,
};
use crate::abi::codec;
use crate::abi::header::{decode_header, EventHeader};
use crate::abi::header;
use crate::abi::{COMM_LEN, PATH_LEN};

verus! {


/// Raw `sys_enter_connect` record.
#[derive(Clone, Copy, Debug, PartialEq, Eq)]
pub struct NetworkConnectEvent {
    pub header: EventHeader,
    pub comm: [u8; COMM_LEN],
    pub family: u16,
    pub socket_fd: i32,
    pub port: u16,
    pub addr_len: u32,
    pub ipv4_addr: u32,
    pub ipv6_addr: [u8; 16],
    pub direction: u8,
    pub _pad: [u8; 5],
}

impl NetworkConnectEvent {
    /// Size in bytes of the encoded record.
    pub const SIZE: u16 = 104;
}

/// `b` starts with the encoding of `e`.
pub open spec fn network_connect_event_layout(b: Seq<u8>, e: NetworkConnectEvent) -> bool {
    &&& b.len() >= 104
    &&& header::header_layout(b, e.header)
    &&& e.comm@ == b.subrange(40, 56)
    &&& e.family == codec::u16_at(b, 56)
    &&& e.socket_fd == codec::i32_at(b, 60)
    &&& e.port == codec::u16_at(b, 64)
    &&& e.addr_len == codec::u32_at(b, 68)
    &&& e.ipv4_addr == codec::u32_at(b, 72)
    &&& e.ipv6_addr@ == b.subrange(76, 92)
    &&& e.direction == b[92]
    &&& e._pad@ == b.subrange(93, 98)
}

/// The encoding of `e`.
pub open spec fn network_connect_event_bytes(e: NetworkConnectEvent) -> Seq<u8> {
    header::header_bytes(e.header)
        + e.comm@
        + codec::u16_le(e.family)
        + codec::zeros(2)
        + codec::u32_le(e.socket_fd as u32)
        + codec::u16_le(e.port)
        + codec::zeros(2)
        + codec::u32_le(e.addr_len)
        + codec::u32_le(e.ipv4_addr)
        + e.ipv6_addr@
        + seq![e.direction]
        + e._pad@
        + codec::zeros(6)
}

/// The encoding of a record lays out that record, and has the record's size.
#[verifier::rlimit(100)]
pub proof fn lemma_network_connect_event_bytes(e: NetworkConnectEvent)
    ensures
        network_connect_event_bytes(e).len() == 104,
        network_connect_event_layout(network_connect_event_bytes(e), e),
{
    let b = network_connect_event_bytes(e);
    header::lemma_header_bytes(e.header, b.skip(40));
    assert(b =~= header::header_bytes(e.header) + b.skip(40));
    assert(b.subrange(40, 56) =~= e.comm@);
    codec::lemma_u16_field(b.take(56), e.family, b.skip(58));
    assert(b =~= b.take(56) + codec::u16_le(e.family) + b.skip(58));
    codec::lemma_u32_field(b.take(60), e.socket_fd as u32, b.skip(64));
    assert(b =~= b.take(60) + codec::u32_le(e.socket_fd as u32) + b.skip(64));
    codec::lemma_i32_cast(e.socket_fd);
    codec::lemma_u16_field(b.take(64), e.port, b.skip(66));
    assert(b =~= b.take(64) + codec::u16_le(e.port) + b.skip(66));
    codec::lemma_u32_field(b.take(68), e.addr_len, b.skip(72));
    assert(b =~= b.take(68) + codec::u32_le(e.addr_len) + b.skip(72));
    codec::lemma_u32_field(b.take(72), e.ipv4_addr, b.skip(76));
    assert(b =~= b.take(72) + codec::u32_le(e.ipv4_addr) + b.skip(76));
    assert(b.subrange(76, 92) =~= e.ipv6_addr@);
    assert(b[92] == e.direction);
    assert(b.subrange(93, 98) =~= e._pad@);
}

/// Two records laid out over the same bytes are equal.
pub proof fn lemma_network_connect_event_layout_unique(b: Seq<u8>, e1: NetworkConnectEvent, e2: NetworkConnectEvent)
    requires
        network_connect_event_layout(b, e1),
        network_connect_event_layout(b, e2),
    ensures
        e1 == e2,
{
    header::lemma_header_layout_unique(b, e1.header, e2.header);
    assert(e1.comm =~= e2.comm);
    assert(e1.ipv6_addr =~= e2.ipv6_addr);
    assert(e1._pad =~= e2._pad);
}

/// What the probe writes for a record is decoded by userspace as that same record:
/// any record laid out over the encoding of `e` is `e`.
pub proof fn lemma_network_connect_event_roundtrip(e: NetworkConnectEvent, d: NetworkConnectEvent)
    requires
        network_connect_event_layout(network_connect_event_bytes(e), d),
    ensures
        d == e,
{
    lemma_network_connect_event_bytes(e);
    lemma_network_connect_event_layout_unique(network_connect_event_bytes(e), e, d);
}

/// Decodes a `NetworkConnectEvent` from the start of `b`; `None` when `b` is shorter than the record.
pub fn decode_network_connect_event(b: &[u8]) -> (r: Option<NetworkConnectEvent>)
    ensures
        r is None <==> b@.len() < 104,
        r matches Some(e) ==> network_connect_event_layout(b@, e),
{
    if b.len() < 104 {
        return None;
    }
    let header = match decode_header(b) {
        Some(h) => h,
        None => return None,
    };
    Some(NetworkConnectEvent {
        header: header,
        comm: read_array(b, 40),
        family: read_u16(b, 56),
        socket_fd: read_i32(b, 60),
        port: read_u16(b, 64),
        addr_len: read_u32(b, 68),
        ipv4_addr: read_u32(b, 72),
        ipv6_addr: read_array(b, 76),
        direction: b[92],
        _pad: read_array(b, 93),
    })
}

impl NetworkConnectEvent {
    /// The record's bytes, as the probe writes them into the ring buffer.
    pub fn to_bytes(&self) -> (r: Vec<u8>)
        ensures
            r@ == network_connect_event_bytes(*self),
            r@.len() == 104,
            network_connect_event_layout(r@, *self),
    {
        let mut v: Vec<u8> = Vec::new();
        self.header.write_to(&mut v);
        write_bytes(&mut v, &self.comm);
        write_u16(&mut v, self.family);
        write_zeros(&mut v, 2);
        write_u32(&mut v, self.socket_fd as u32);
        write_u16(&mut v, self.port);
        write_zeros(&mut v, 2);
        write_u32(&mut v, self.addr_len);
        write_u32(&mut v, self.ipv4_addr);
        write_bytes(&mut v, &self.ipv6_addr);
        v.push(self.direction);
        write_bytes(&mut v, &self._pad);
        write_zeros(&mut v, 6);
        proof {
            assert(v@ =~= network_connect_event_bytes(*self));
            lemma_network_connect_event_bytes(*self);
        }
        v
    }
}

impl Default for NetworkConnectEvent {
    fn default() -> (e: Self)
        ensures
            e.header == header::zero_header(),
            forall|i: int| 0 <= i < e.comm@.len() ==> e.comm@[i] == 0,
            e.family == 0,
            e.socket_fd == 0,
            e.port == 0,
            e.addr_len == 0,
            e.ipv4_addr == 0,
            forall|i: int| 0 <= i < e.ipv6_addr@.len() ==> e.ipv6_addr@[i] == 0,
            e.direction == 1,
            forall|i: int| 0 <= i < e._pad@.len() ==> e._pad@[i] == 0,
    {
        NetworkConnectEvent {
            header: EventHeader::default(),
            comm: [0u8; 16],
            family: 0,
            socket_fd: 0,
            port: 0,
            addr_len: 0,
            ipv4_addr: 0,
            ipv6_addr: [0u8; 16],
            direction: 1,
            _pad: [0u8; 5],
        }
    }
}

/// Raw `sys_enter_bind` record.
#[derive(Clone, Copy, Debug, PartialEq, Eq)]
pub struct NetworkBindEvent {
    pub header: EventHeader,
    pub comm: [u8; COMM_LEN],
    pub family: u16,
    pub socket_fd: i32,
    pub port: u16,
    pub addr_len: u32,
    pub ipv4_addr: u32,
    pub ipv6_addr: [u8; 16],
    pub direction: u8,
    pub _pad: [u8; 5],
}

impl NetworkBindEvent {
    /// Size in bytes of the encoded record.
    pub const SIZE: u16 = 104;
}

/// `b` starts with the encoding of `e`.
pub open spec fn network_bind_event_layout(b: Seq<u8>, e: NetworkBindEvent) -> bool {
    &&& b.len() >= 104
    &&& header::header_layout(b, e.header)
    &&& e.comm@ == b.subrange(40, 56)
    &&& e.family == codec::u16_at(b, 56)
    &&& e.socket_fd == codec::i32_at(b, 60)
    &&& e.port == codec::u16_at(b, 64)
    &&& e.addr_len == codec::u32_at(b, 68)
    &&& e.ipv4_addr == codec::u32_at(b, 72)
    &&& e.ipv6_addr@ == b.subrange(76, 92)
    &&& e.direction == b[92]
    &&& e._pad@ == b.subrange(93, 98)
}

/// The encoding of `e`.
pub open spec fn network_bind_event_bytes(e: NetworkBindEvent) -> Seq<u8> {
    header::header_bytes(e.header)
        + e.comm@
        + codec::u16_le(e.family)
        + codec::zeros(2)
        + codec::u32_le(e.socket_fd as u32)
        + codec::u16_le(e.port)
        + codec::zeros(2)
        + codec::u32_le(e.addr_len)
        + codec::u32_le(e.ipv4_addr)
        + e.ipv6_addr@
        + seq![e.direction]
        + e._pad@
        + codec::zeros(6)
}

/// The encoding of a record lays out that record, and has the record's size.
#[verifier::rlimit(100)]
pub proof fn lemma_network_bind_event_bytes(e: NetworkBindEvent)
    ensures
        network_bind_event_bytes(e).len() == 104,
        network_bind_event_layout(network_bind_event_bytes(e), e),
{
    let b = network_bind_event_bytes(e);
    header::lemma_header_bytes(e.header, b.skip(40));
    assert(b =~= header::header_bytes(e.header) + b.skip(40));
    assert(b.subrange(40, 56) =~= e.comm@);
    codec::lemma_u16_field(b.take(56), e.family, b.skip(58));
    assert(b =~= b.take(56) + codec::u16_le(e.family) + b.skip(58));
    codec::lemma_u32_field(b.take(60), e.socket_fd as u32, b.skip(64));
    assert(b =~= b.take(60) + codec::u32_le(e.socket_fd as u32) + b.skip(64));
    codec::lemma_i32_cast(e.socket_fd);
    codec::lemma_u16_field(b.take(64), e.port, b.skip(66));
    assert(b =~= b.take(64) + codec::u16_le(e.port) + b.skip(66));
    codec::lemma_u32_field(b.take(68), e.addr_len, b.skip(72));
    assert(b =~= b.take(68) + codec::u32_le(e.addr_len) + b.skip(72));
    codec::lemma_u32_field(b.take(72), e.ipv4_addr, b.skip(76));
    assert(b =~= b.take(72) + codec::u32_le(e.ipv4_addr) + b.skip(76));
    assert(b.subrange(76, 92) =~= e.ipv6_addr@);
    assert(b[92] == e.direction);
    assert(b.subrange(93, 98) =~= e._pad@);
}

/// Two records laid out over the same bytes are equal.
pub proof fn lemma_network_bind_event_layout_unique(b: Seq<u8>, e1: NetworkBindEvent, e2: NetworkBindEvent)
    requires
        network_bind_event_layout(b, e1),
        network_bind_event_layout(b, e2),
    ensures
        e1 == e2,
{
    header::lemma_header_layout_unique(b, e1.header, e2.header);
    assert(e1.comm =~= e2.comm);
    assert(e1.ipv6_addr =~= e2.ipv6_addr);
    assert(e1._pad =~= e2._pad);
}

/// What the probe writes for a record is decoded by userspace as that same record:
/// any record laid out over the encoding of `e` is `e`.
pub proof fn lemma_network_bind_event_roundtrip(e: NetworkBindEvent, d: NetworkBindEvent)
    requires
        network_bind_event_layout(network_bind_event_bytes(e), d),
    ensures
        d == e,
{
    lemma_network_bind_event_bytes(e);
    lemma_network_bind_event_layout_unique(network_bind_event_bytes(e), e, d);
}

/// Decodes a `NetworkBindEvent` from the start of `b`; `None` when `b` is shorter than the record.
pub fn decode_network_bind_event(b: &[u8]) -> (r: Option<NetworkBindEvent>)
    ensures
        r is None <==> b@.len() < 104,
        r matches Some(e) ==> network_bind_event_layout(b@, e),
{
    if b.len() < 104 {
        return None;
    }
    let header = match decode_header(b) {
        Some(h) => h,
        None => return None,
    };
    Some(NetworkBindEvent {
        header: header,
        comm: read_array(b, 40),
        family: read_u16(b, 56),
        socket_fd: read_i32(b, 60),
        port: read_u16(b, 64),
        addr_len: read_u32(b, 68),
        ipv4_addr: read_u32(b, 72),
        ipv6_addr: read_array(b, 76),
        direction: b[92],
        _pad: read_array(b, 93),
    })
}

impl NetworkBindEvent {
    /// The record's bytes, as the probe writes them into the ring buffer.
    pub fn to_bytes(&self) -> (r: Vec<u8>)
        ensures
            r@ == network_bind_event_bytes(*self),
            r@.len() == 104,
            network_bind_event_layout(r@, *self),
    {
        let mut v: Vec<u8> = Vec::new();
        self.header.write_to(&mut v);
        write_bytes(&mut v, &self.comm);
        write_u16(&mut v, self.family);
        write_zeros(&mut v, 2);
        write_u32(&mut v, self.socket_fd as u32);
        write_u16(&mut v, self.port);
        write_zeros(&mut v, 2);
        write_u32(&mut v, self.addr_len);
        write_u32(&mut v, self.ipv4_addr);
        write_bytes(&mut v, &self.ipv6_addr);
        v.push(self.direction);
        write_bytes(&mut v, &self._pad);
        write_zeros(&mut v, 6);
        proof {
            assert(v@ =~= network_bind_event_bytes(*self));
            lemma_network_bind_event_bytes(*self);
        }
        v
    }
}

impl Default for NetworkBindEvent {
    fn default() -> (e: Self)
        ensures
            e.header == header::zero_header(),
            forall|i: int| 0 <= i < e.comm@.len() ==> e.comm@[i] == 0,
            e.family == 0,
            e.socket_fd == 0,
            e.port == 0,
            e.addr_len == 0,
            e.ipv4_addr == 0,
            forall|i: int| 0 <= i < e.ipv6_addr@.len() ==> e.ipv6_addr@[i] == 0,
            e.direction == 2,
            forall|i: int| 0 <= i < e._pad@.len() ==> e._pad@[i] == 0,
    {
        NetworkBindEvent {
            header: EventHeader::default(),
            comm: [0u8; 16],
            family: 0,
            socket_fd: 0,
            port: 0,
            addr_len: 0,
            ipv4_addr: 0,
            ipv6_addr: [0u8; 16],
            direction: 2,
            _pad: [0u8; 5],
        }
    }
}

/// Raw `sys_enter_listen` record.
#[derive(Clone, Copy, Debug, PartialEq, Eq)]
pub struct NetworkListenEvent {
    pub header: EventHeader,
    pub comm: [u8; COMM_LEN],
    pub family: u16,
    pub socket_fd: i32,
    pub port: u16,
    pub addr_len: u32,
    pub ipv4_addr: u32,
    pub ipv6_addr: [u8; 16],
    pub backlog: i32,
    pub direction: u8,
    pub _pad: [u8; 5],
}

impl NetworkListenEvent {
    /// Size in bytes of the encoded record.
    pub const SIZE: u16 = 104;
}

/// `b` starts with the encoding of `e`.
pub open spec fn network_listen_event_layout(b: Seq<u8>, e: NetworkListenEvent) -> bool {
    &&& b.len() >= 104
    &&& header::header_layout(b, e.header)
    &&& e.comm@ == b.subrange(40, 56)
    &&& e.family == codec::u16_at(b, 56)
    &&& e.socket_fd == codec::i32_at(b, 60)
    &&& e.port == codec::u16_at(b, 64)
    &&& e.addr_len == codec::u32_at(b, 68)
    &&& e.ipv4_addr == codec::u32_at(b, 72)
    &&& e.ipv6_addr@ == b.subrange(76, 92)
    &&& e.backlog == codec::i32_at(b, 92)
    &&& e.direction == b[96]
    &&& e._pad@ == b.subrange(97, 102)
}

/// The encoding of `e`.
pub open spec fn network_listen_event_bytes(e: NetworkListenEvent) -> Seq<u8> {
    header::header_bytes(e.header)
        + e.comm@
        + codec::u16_le(e.family)
        + codec::zeros(2)
        + codec::u32_le(e.socket_fd as u32)
        + codec::u16_le(e.port)
        + codec::zeros(2)
        + codec::u32_le(e.addr_len)
        + codec::u32_le(e.ipv4_addr)
        + e.ipv6_addr@
        + codec::u32_le(e.backlog as u32)
        + seq![e.direction]
        + e._pad@
        + codec::zeros(2)
}

/// The encoding of a record lays out that record, and has the record's size.
#[verifier::rlimit(100)]
pub proof fn lemma_network_listen_event_bytes(e: NetworkListenEvent)
    ensures
        network_listen_event_bytes(e).len() == 104,
        network_listen_event_layout(network_listen_event_bytes(e), e),
{
    let b = network_listen_event_bytes(e);
    header::lemma_header_bytes(e.header, b.skip(40));
    assert(b =~= header::header_bytes(e.header) + b.skip(40));
    assert(b.subrange(40, 56) =~= e.comm@);
    codec::lemma_u16_field(b.take(56), e.family, b.skip(58));
    assert(b =~= b.take(56) + codec::u16_le(e.family) + b.skip(58));
    codec::lemma_u32_field(b.take(60), e.socket_fd as u32, b.skip(64));
    assert(b =~= b.take(60) + codec::u32_le(e.socket_fd as u32) + b.skip(64));
    codec::lemma_i32_cast(e.socket_fd);
    codec::lemma_u16_field(b.take(64), e.port, b.skip(66));
    assert(b =~= b.take(64) + codec::u16_le(e.port) + b.skip(66));
    codec::lemma_u32_field(b.take(68), e.addr_len, b.skip(72));
    assert(b =~= b.take(68) + codec::u32_le(e.addr_len) + b.skip(72));
    codec::lemma_u32_field(b.take(72), e.ipv4_addr, b.skip(76));
    assert(b =~= b.take(72) + codec::u32_le(e.ipv4_addr) + b.skip(76));
    assert(b.subrange(76, 92) =~= e.ipv6_addr@);
    codec::lemma_u32_field(b.take(92), e.backlog as u32, b.skip(96));
    assert(b =~= b.take(92) + codec::u32_le(e.backlog as u32) + b.skip(96));
    codec::lemma_i32_cast(e.backlog);
    assert(b[96] == e.direction);
    assert(b.subrange(97, 102) =~= e._pad@);
}

/// Two records laid out over the same bytes are equal.
pub proof fn lemma_network_listen_event_layout_unique(b: Seq<u8>, e1: NetworkListenEvent, e2: NetworkListenEvent)
    requires
        network_listen_event_layout(b, e1),
        network_listen_event_layout(b, e2),
    ensures
        e1 == e2,
{
    header::lemma_header_layout_unique(b, e1.header, e2.header);
    assert(e1.comm =~= e2.comm);
    assert(e1.ipv6_addr =~= e2.ipv6_addr);
    assert(e1._pad =~= e2._pad);
}

/// What the probe writes for a record is decoded by userspace as that same record:
/// any record laid out over the encoding of `e` is `e`.
pub proof fn lemma_network_listen_event_roundtrip(e: NetworkListenEvent, d: NetworkListenEvent)
    requires
        network_listen_event_layout(network_listen_event_bytes(e), d),
    ensures
        d == e,
{
    lemma_network_listen_event_bytes(e);
    lemma_network_listen_event_layout_unique(network_listen_event_bytes(e), e, d);
}

/// Decodes a `NetworkListenEvent` from the start of `b`; `None` when `b` is shorter than the record.
pub fn decode_network_listen_event(b: &[u8]) -> (r: Option<NetworkListenEvent>)
    ensures
        r is None <==> b@.len() < 104,
        r matches Some(e) ==> network_listen_event_layout(b@, e),
{
    if b.len() < 104 {
        return None;
    }
    let header = match decode_header(b) {
        Some(h) => h,
        None => return None,
    };
    Some(NetworkListenEvent {
        header: header,
        comm: read_array(b, 40),
        family: read_u16(b, 56),
        socket_fd: read_i32(b, 60),
        port: read_u16(b, 64),
        addr_len: read_u32(b, 68),
        ipv4_addr: read_u32(b, 72),
        ipv6_addr: read_array(b, 76),
        backlog: read_i32(b, 92),
        direction: b[96],
        _pad: read_array(b, 97),
    })
}

impl NetworkListenEvent {
    /// The record's bytes, as the probe writes them into the ring buffer.
    pub fn to_bytes(&self) -> (r: Vec<u8>)
        ensures
            r@ == network_listen_event_bytes(*self),
            r@.len() == 104,
            network_listen_event_layout(r@, *self),
    {
        let mut v: Vec<u8> = Vec::new();
        self.header.write_to(&mut v);
        write_bytes(&mut v, &self.comm);
        write_u16(&mut v, self.family);
        write_zeros(&mut v, 2);
        write_u32(&mut v, self.socket_fd as u32);
        write_u16(&mut v, self.port);
        write_zeros(&mut v, 2);
        write_u32(&mut v, self.addr_len);
        write_u32(&mut v, self.ipv4_addr);
        write_bytes(&mut v, &self.ipv6_addr);
        write_u32(&mut v, self.backlog as u32);
        v.push(self.direction);
        write_bytes(&mut v, &self._pad);
        write_zeros(&mut v, 2);
        proof {
            assert(v@ =~= network_listen_event_bytes(*self));
            lemma_network_listen_event_bytes(*self);
        }
        v
    }
}

impl Default for NetworkListenEvent {
    fn default() -> (e: Self)
        ensures
            e.header == header::zero_header(),
            forall|i: int| 0 <= i < e.comm@.len() ==> e.comm@[i] == 0,
            e.family == 0,
            e.socket_fd == 0,
            e.port == 0,
            e.addr_len == 0,
            e.ipv4_addr == 0,
            forall|i: int| 0 <= i < e.ipv6_addr@.len() ==> e.ipv6_addr@[i] == 0,
            e.backlog == 0,
            e.direction == 2,
            forall|i: int| 0 <= i < e._pad@.len() ==> e._pad@[i] == 0,
    {
        NetworkListenEvent {
            header: EventHeader::default(),
            comm: [0u8; 16],
            family: 0,
            socket_fd: 0,
            port: 0,
            addr_len: 0,
            ipv4_addr: 0,
            ipv6_addr: [0u8; 16],
            backlog: 0,
            direction: 2,
            _pad: [0u8; 5],
        }
    }
}

} // verus!
