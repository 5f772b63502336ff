//! The header that starts every raw record.
use vstd::prelude::*;
use crate::abi::codec::{read_u16, read_u32, read_u64, write_u16, write_u32, write_u64};
use crate::abi::codec;
use crate::abi::kinds::EventKind;
use crate::abi::kinds;

verus! {

/// Size in bytes of an encoded header.
pub const HEADER_SIZE: usize = 40;

/// Common prefix of every ring-buffer record.
#[derive(Clone, Copy, Debug, PartialEq, Eq)]
pub struct EventHeader {
    pub kind: u16,
    pub version: u16,
    pub size: u16,
    pub flags: u16,
    pub timestamp_ns: u64,
    pub pid: u32,
    pub tid: u32,
    pub ppid: u32,
    pub uid: u32,
    pub gid: u32,
    pub _pad: u32,
}

/// The all-zero header.
pub open spec fn zero_header() -> EventHeader {
    EventHeader {
        kind: 0,
        version: 0,
        size: 0,
        flags: 0,
        timestamp_ns: 0,
        pid: 0,
        tid: 0,
        ppid: 0,
        uid: 0,
        gid: 0,
        _pad: 0,
    }
}

impl Default for EventHeader {
    fn default() -> (h: Self)
        ensures
            h == zero_header(),
    {
        EventHeader {
            kind: 0,
            version: 0,
            size: 0,
            flags: 0,
            timestamp_ns: 0,
            pid: 0,
            tid: 0,
            ppid: 0,
            uid: 0,
            gid: 0,
            _pad: 0,
        }
    }
}

/// `b` starts with the encoding of `h`.
pub open spec fn header_layout(b: Seq<u8>, h: EventHeader) -> bool {
    &&& b.len() >= HEADER_SIZE
    &&& h.kind == codec::u16_at(b, 0)
    &&& h.version == codec::u16_at(b, 2)
    &&& h.size == codec::u16_at(b, 4)
    &&& h.flags == codec::u16_at(b, 6)
    &&& h.timestamp_ns == codec::u64_at(b, 8)
    &&& h.pid == codec::u32_at(b, 16)
    &&& h.tid == codec::u32_at(b, 20)
    &&& h.ppid == codec::u32_at(b, 24)
    &&& h.uid == codec::u32_at(b, 28)
    &&& h.gid == codec::u32_at(b, 32)
    &&& h._pad == codec::u32_at(b, 36)
}

/// The encoding of `h`.
pub open spec fn header_bytes(h: EventHeader) -> Seq<u8> {
    codec::u16_le(h.kind) + codec::u16_le(h.version) + codec::u16_le(h.size) + codec::u16_le(h.flags) + codec::u64_le(h.timestamp_ns)
        + codec::u32_le(h.pid) + codec::u32_le(h.tid) + codec::u32_le(h.ppid) + codec::u32_le(h.uid) + codec::u32_le(h.gid) + codec::u32_le(
        h._pad,
    )
}

/// Two headers laid out over the same bytes are equal.
pub proof fn lemma_header_layout_unique(b: Seq<u8>, h1: EventHeader, h2: EventHeader)
    requires
        header_layout(b, h1),
        header_layout(b, h2),
    ensures
        h1 == h2,
{
}

/// The encoding of a header, followed by anything, lays out that header.
pub proof fn lemma_header_bytes(h: EventHeader, rest: Seq<u8>)
    ensures
        header_bytes(h).len() == HEADER_SIZE,
        header_layout(header_bytes(h) + rest, h),
{
    let b = header_bytes(h) + rest;
    assert(header_bytes(h).len() == 40);
    codec::lemma_u16_field(Seq::empty(), h.kind, b.skip(2));
    assert(b =~= Seq::empty() + codec::u16_le(h.kind) + b.skip(2));
    codec::lemma_u16_field(b.take(2), h.version, b.skip(4));
    assert(b =~= b.take(2) + codec::u16_le(h.version) + b.skip(4));
    codec::lemma_u16_field(b.take(4), h.size, b.skip(6));
    assert(b =~= b.take(4) + codec::u16_le(h.size) + b.skip(6));
    codec::lemma_u16_field(b.take(6), h.flags, b.skip(8));
    assert(b =~= b.take(6) + codec::u16_le(h.flags) + b.skip(8));
    codec::lemma_u64_field(b.take(8), h.timestamp_ns, b.skip(16));
    assert(b =~= b.take(8) + codec::u64_le(h.timestamp_ns) + b.skip(16));
    codec::lemma_u32_field(b.take(16), h.pid, b.skip(20));
    assert(b =~= b.take(16) + codec::u32_le(h.pid) + b.skip(20));
    codec::lemma_u32_field(b.take(20), h.tid, b.skip(24));
    assert(b =~= b.take(20) + codec::u32_le(h.tid) + b.skip(24));
    codec::lemma_u32_field(b.take(24), h.ppid, b.skip(28));
    assert(b =~= b.take(24) + codec::u32_le(h.ppid) + b.skip(28));
    codec::lemma_u32_field(b.take(28), h.uid, b.skip(32));
    assert(b =~= b.take(28) + codec::u32_le(h.uid) + b.skip(32));
    codec::lemma_u32_field(b.take(32), h.gid, b.skip(36));
    assert(b =~= b.take(32) + codec::u32_le(h.gid) + b.skip(36));
    codec::lemma_u32_field(b.take(36), h._pad, b.skip(40));
    assert(b =~= b.take(36) + codec::u32_le(h._pad) + b.skip(40));
}

/// Decodes the header at the start of `b`; `None` when `b` is too short.
pub fn decode_header(b: &[u8]) -> (r: Option<EventHeader>)
    ensures
        r is None <==> b@.len() < HEADER_SIZE,
        r matches Some(h) ==> header_layout(b@, h),
{
    if b.len() < HEADER_SIZE {
        return None;
    }
    Some(
        EventHeader {
            kind: read_u16(b, 0),
            version: read_u16(b, 2),
            size: read_u16(b, 4),
            flags: read_u16(b, 6),
            timestamp_ns: read_u64(b, 8),
            pid: read_u32(b, 16),
            tid: read_u32(b, 20),
            ppid: read_u32(b, 24),
            uid: read_u32(b, 28),
            gid: read_u32(b, 32),
            _pad: read_u32(b, 36),
        },
    )
}

impl EventHeader {
    /// Appends the encoding of this header.
    pub fn write_to(&self, v: &mut Vec<u8>)
        ensures
            final(v)@ == old(v)@ + header_bytes(*self),
    {
        let ghost start = v@;
        write_u16(v, self.kind);
        write_u16(v, self.version);
        write_u16(v, self.size);
        write_u16(v, self.flags);
        write_u64(v, self.timestamp_ns);
        write_u32(v, self.pid);
        write_u32(v, self.tid);
        write_u32(v, self.ppid);
        write_u32(v, self.uid);
        write_u32(v, self.gid);
        write_u32(v, self._pad);
        assert(v@ =~= start + header_bytes(*self));
    }
}

/// Fills the header that a probe writes for a record of `kind` and `size`:
/// the current schema version, no flags, no parent (userspace fills it in),
/// and the probe's clock reading `timestamp_ns`.
pub fn fill_header(
    header: &mut EventHeader,
    kind: EventKind,
    size: u16,
    pid: u32,
    tid: u32,
    uid: u32,
    gid: u32,
    timestamp_ns: u64,
)
    ensures
        *final(header) == (EventHeader {
            kind: kinds::kind_code(kind),
            version: 1,
            size,
            flags: 0,
            timestamp_ns,
            pid,
            tid,
            ppid: 0,
            uid,
            gid,
            _pad: 0,
        }),
{
    header.kind = kind.as_u16();
    header.version = crate::abi::EVENT_SCHEMA_VERSION;
    header.size = size;
    header.flags = 0;
    header.timestamp_ns = timestamp_ns;
    header.pid = pid;
    header.tid = tid;
    header.ppid = 0;
    header.uid = uid;
    header.gid = gid;
    header._pad = 0;
}

} // verus!
