//! The socket probes: connect, bind and listen.
use vstd::prelude::*;
use crate::abi::codec;
use crate::abi::kinds::EventKind;
use crate::abi::{NetworkBindEvent, NetworkConnectEvent, NetworkListenEvent};
use crate::probes::{make_header, read_ctx_i32, read_ctx_u64, TaskIds};
use crate::probes;

verus! {

/// A big-endian `u16` at `off` of `b`.
pub open spec fn be_u16_at(b: Seq<u8>, off: int) -> u16 {
    (b[off] as int * 0x100 + b[off + 1] as int) as u16
}

/// A big-endian `u32` at `off` of `b`.
pub open spec fn be_u32_at(b: Seq<u8>, off: int) -> u32 {
    (b[off] as int * 0x100_0000 + b[off + 1] as int * 0x1_0000 + b[off + 2] as int * 0x100
        + b[off + 3] as int) as u32
}

/// What a probe takes from a socket address: the socket, the family, the
/// port and addresses in host order, and the length the caller passed.
pub struct SockaddrFields {
    pub socket_fd: i32,
    pub family: u16,
    pub port: u16,
    pub addr_len: u32,
    pub ipv4_addr: u32,
    pub ipv6_addr: [u8; 16],
}

/// The socket argument sits at offset 16 of the record, the address
/// pointer at 24 and its length at 32.  `user` holds the bytes readable at
/// the address pointer; a read past them fails.  Nothing is taken from a
/// null pointer or a length under 2, an IPv4 address under 16 bytes or an
/// IPv6 address under 28; another family gives port and addresses zero.
pub open spec fn sockaddr_outcome(ctx: Seq<u8>, user: Seq<u8>) -> Option<
    (i32, u16, u16, u32, u32, Seq<u8>),
> {
    match (probes::ctx_i32(ctx, 16), probes::ctx_u64(ctx, 24), probes::ctx_i32(ctx, 32)) {
        (Some(fd), Some(ptr), Some(addr_len)) => {
            if ptr == 0 || addr_len < 2 || user.len() < 2 {
                None
            } else {
                let family = codec::u16_at(user, 0);
                if family == 2 {
                    if addr_len < 16 || user.len() < 8 {
                        None
                    } else {
                        Some(
                            (
                                fd,
                                family,
                                be_u16_at(user, 2),
                                addr_len as u32,
                                be_u32_at(user, 4),
                                codec::zeros(16),
                            ),
                        )
                    }
                } else if family == 10 {
                    if addr_len < 28 || user.len() < 24 {
                        None
                    } else {
                        Some(
                            (
                                fd,
                                family,
                                be_u16_at(user, 2),
                                addr_len as u32,
                                0u32,
                                user.subrange(8, 24),
                            ),
                        )
                    }
                } else {
                    Some((fd, family, 0u16, addr_len as u32, 0u32, codec::zeros(16)))
                }
            }
        },
        _ => None,
    }
}

/// `f` holds the fields of outcome `o`.
pub open spec fn fields_are(f: SockaddrFields, o: (i32, u16, u16, u32, u32, Seq<u8>)) -> bool {
    &&& f.socket_fd == o.0
    &&& f.family == o.1
    &&& f.port == o.2
    &&& f.addr_len == o.3
    &&& f.ipv4_addr == o.4
    &&& f.ipv6_addr@ == o.5
}

fn read_be_u16(b: &[u8], off: usize) -> (r: u16)
    requires
        off + 2 <= b@.len(),
    ensures
        r == be_u16_at(b@, off as int),
{
    (b[off] as u16) * 0x100 + (b[off + 1] as u16)
}

fn read_be_u32(b: &[u8], off: usize) -> (r: u32)
    requires
        off + 4 <= b@.len(),
    ensures
        r == be_u32_at(b@, off as int),
{
    (b[off] as u32) * 0x100_0000 + (b[off + 1] as u32) * 0x1_0000 + (b[off + 2] as u32) * 0x100
        + (b[off + 3] as u32)
}

/// Reads the socket arguments and address as the connect and bind probes do.
pub fn read_sockaddr(ctx: &[u8], user: &[u8]) -> (r: Option<SockaddrFields>)
    ensures
        r is Some <==> sockaddr_outcome(ctx@, user@) is Some,
        r matches Some(f) ==> fields_are(f, sockaddr_outcome(ctx@, user@)->0),
{
    let fd = match read_ctx_i32(ctx, 16) {
        Some(v) => v,
        None => return None,
    };
    let ptr = match read_ctx_u64(ctx, 24) {
        Some(v) => v,
        None => return None,
    };
    let addr_len = match read_ctx_i32(ctx, 32) {
        Some(v) => v,
        None => return None,
    };
    if ptr == 0 || addr_len < 2 || user.len() < 2 {
        return None;
    }
    let family = codec::read_u16(user, 0);
    let mut port: u16 = 0;
    let mut ipv4_addr: u32 = 0;
    let mut ipv6_addr = [0u8; 16];
    assert(ipv6_addr@ =~= codec::zeros(16));
    if family == 2 {
        if addr_len < 16 || user.len() < 8 {
            return None;
        }
        port = read_be_u16(user, 2);
        ipv4_addr = read_be_u32(user, 4);
    } else if family == 10 {
        if addr_len < 28 || user.len() < 24 {
            return None;
        }
        port = read_be_u16(user, 2);
        ipv6_addr = codec::read_array::<16>(user, 8);
    }
    Some(SockaddrFields { socket_fd: fd, family, port, addr_len: addr_len as u32, ipv4_addr, ipv6_addr })
}

/// The record the connect probe submits: the address fields, the task name
/// the helper gave (`None` when it failed, and the record is discarded),
/// and the outbound direction.
pub fn connect_record(ctx: &[u8], user: &[u8], ids: TaskIds, timestamp_ns: u64, comm: Option<[u8; 16]>) -> (r:
    Option<NetworkConnectEvent>)
    ensures
        r is Some <==> (comm is Some && sockaddr_outcome(ctx@, user@) is Some),
        r matches Some(e) ==> {
            let o = sockaddr_outcome(ctx@, user@)->0;
            &&& e.header == probes::probe_header(EventKind::NetworkConnect, 104, ids, timestamp_ns, false)
            &&& e.comm == comm->0
            &&& e.socket_fd == o.0
            &&& e.family == o.1
            &&& e.port == o.2
            &&& e.addr_len == o.3
            &&& e.ipv4_addr == o.4
            &&& e.ipv6_addr@ == o.5
            &&& e.direction == 1
            &&& e._pad@ == codec::zeros(5)
        },
{
    let f = match read_sockaddr(ctx, user) {
        Some(f) => f,
        None => return None,
    };
    let comm = match comm {
        Some(c) => c,
        None => return None,
    };
    let pad = [0u8; 5];
    assert(pad@ =~= codec::zeros(5));
    Some(
        NetworkConnectEvent {
            header: make_header(EventKind::NetworkConnect, 104, ids, timestamp_ns, false),
            comm,
            family: f.family,
            socket_fd: f.socket_fd,
            port: f.port,
            addr_len: f.addr_len,
            ipv4_addr: f.ipv4_addr,
            ipv6_addr: f.ipv6_addr,
            direction: 1,
            _pad: pad,
        },
    )
}

/// The record the bind probe submits: as for connect, with the listener
/// direction.
pub fn bind_record(ctx: &[u8], user: &[u8], ids: TaskIds, timestamp_ns: u64, comm: Option<[u8; 16]>) -> (r:
    Option<NetworkBindEvent>)
    ensures
        r is Some <==> (comm is Some && sockaddr_outcome(ctx@, user@) is Some),
        r matches Some(e) ==> {
            let o = sockaddr_outcome(ctx@, user@)->0;
            &&& e.header == probes::probe_header(EventKind::NetworkBind, 104, ids, timestamp_ns, false)
            &&& e.comm == comm->0
            &&& e.socket_fd == o.0
            &&& e.family == o.1
            &&& e.port == o.2
            &&& e.addr_len == o.3
            &&& e.ipv4_addr == o.4
            &&& e.ipv6_addr@ == o.5
            &&& e.direction == 2
            &&& e._pad@ == codec::zeros(5)
        },
{
    let f = match read_sockaddr(ctx, user) {
        Some(f) => f,
        None => return None,
    };
    let comm = match comm {
        Some(c) => c,
        None => return None,
    };
    let pad = [0u8; 5];
    assert(pad@ =~= codec::zeros(5));
    Some(
        NetworkBindEvent {
            header: make_header(EventKind::NetworkBind, 104, ids, timestamp_ns, false),
            comm,
            family: f.family,
            socket_fd: f.socket_fd,
            port: f.port,
            addr_len: f.addr_len,
            ipv4_addr: f.ipv4_addr,
            ipv6_addr: f.ipv6_addr,
            direction: 2,
            _pad: pad,
        },
    )
}

/// The record the listen probe submits: the socket at offset 16 and the
/// backlog at 24, no address, the listener direction.
pub fn listen_record(ctx: &[u8], ids: TaskIds, timestamp_ns: u64, comm: Option<[u8; 16]>) -> (r: Option<
    NetworkListenEvent,
>)
    ensures
        r is Some <==> (comm is Some && probes::ctx_i32(ctx@, 16) is Some && probes::ctx_i32(ctx@, 24) is Some),
        r matches Some(e) ==> {
            &&& e.header == probes::probe_header(EventKind::NetworkListen, 104, ids, timestamp_ns, false)
            &&& e.comm == comm->0
            &&& e.socket_fd == probes::ctx_i32(ctx@, 16)->0
            &&& e.backlog == probes::ctx_i32(ctx@, 24)->0
            &&& e.family == 0
            &&& e.port == 0
            &&& e.addr_len == 0
            &&& e.ipv4_addr == 0
            &&& e.ipv6_addr@ == codec::zeros(16)
            &&& e.direction == 2
            &&& e._pad@ == codec::zeros(5)
        },
{
    let fd = match read_ctx_i32(ctx, 16) {
        Some(v) => v,
        None => return None,
    };
    let backlog = match read_ctx_i32(ctx, 24) {
        Some(v) => v,
        None => return None,
    };
    let comm = match comm {
        Some(c) => c,
        None => return None,
    };
    let pad = [0u8; 5];
    assert(pad@ =~= codec::zeros(5));
    let ipv6_addr = [0u8; 16];
    assert(ipv6_addr@ =~= codec::zeros(16));
    Some(
        NetworkListenEvent {
            header: make_header(EventKind::NetworkListen, 104, ids, timestamp_ns, false),
            comm,
            family: 0,
            socket_fd: fd,
            port: 0,
            addr_len: 0,
            ipv4_addr: 0,
            ipv6_addr,
            backlog,
            direction: 2,
            _pad: pad,
        },
    )
}

} // verus!
