//! File-syscall records.
use vstd::prelude::*;
use crate::abi::codec::{
    read_array, read_i32, read_i64, read_u16, read_u32, read_u64, write_bytes, write_u16,
    write_u32, write_u64, write_zeros,
};
use crate::abi::codec;
use crate::abi::header::{decode_header, EventHeader};
use crate::abi::header;
use crate::abi::{COMM_LEN, PATH_LEN};

verus! {


/// Raw `sys_enter_openat` record.
#[derive(Clone, Copy, Debug, PartialEq, Eq)]
pub struct FileOpenEvent {
    pub header: EventHeader,
    pub filename: [u8; PATH_LEN],
    pub filename_len: u16,
    pub flags: u32,
    pub _pad: [u8; 2],
}

impl FileOpenEvent {
    /// Size in bytes of the encoded record.
    pub const SIZE: u16 = 312;
}

/// `b` starts with the encoding of `e`.
pub open spec fn file_open_event_layout(b: Seq<u8>, e: FileOpenEvent) -> bool {
    &&& b.len() >= 312
    &&& header::header_layout(b, e.header)
    &&& e.filename@ == b.subrange(40, 296)
    &&& e.filename_len == codec::u16_at(b, 296)
    &&& e.flags == codec::u32_at(b, 300)
    &&& e._pad@ == b.subrange(304, 306)
}

/// The encoding of `e`.
pub open spec fn file_open_event_bytes(e: FileOpenEvent) -> Seq<u8> {
    header::header_bytes(e.header)
        + e.filename@
        + codec::u16_le(e.filename_len)
        + codec::zeros(2)
        + codec::u32_le(e.flags)
        + e._pad@
        + codec::zeros(6)
}

/// The encoding of a record lays out that record, and has the record's size.
#[verifier::rlimit(100)]
pub proof fn lemma_file_open_event_bytes(e: FileOpenEvent)
    ensures
        file_open_event_bytes(e).len() == 312,
        file_open_event_layout(file_open_event_bytes(e), e),
{
    let b = file_open_event_bytes(e);
    header::lemma_header_bytes(e.header, b.skip(40));
    assert(b =~= header::header_bytes(e.header) + b.skip(40));
    assert(b.subrange(40, 296) =~= e.filename@);
    codec::lemma_u16_field(b.take(296), e.filename_len, b.skip(298));
    assert(b =~= b.take(296) + codec::u16_le(e.filename_len) + b.skip(298));
    codec::lemma_u32_field(b.take(300), e.flags, b.skip(304));
    assert(b =~= b.take(300) + codec::u32_le(e.flags) + b.skip(304));
    assert(b.subrange(304, 306) =~= e._pad@);
}

/// Two records laid out over the same bytes are equal.
pub proof fn lemma_file_open_event_layout_unique(b: Seq<u8>, e1: FileOpenEvent, e2: FileOpenEvent)
    requires
        file_open_event_layout(b, e1),
        file_open_event_layout(b, e2),
    ensures
        e1 == e2,
{
    header::lemma_header_layout_unique(b, e1.header, e2.header);
    assert(e1.filename =~= e2.filename);
    assert(e1._pad =~= e2._pad);
}

/// What the probe writes for a record is decoded by userspace as that same record:
/// any record laid out over the encoding of `e` is `e`.
pub proof fn lemma_file_open_event_roundtrip(e: FileOpenEvent, d: FileOpenEvent)
    requires
        file_open_event_layout(file_open_event_bytes(e), d),
    ensures
        d == e,
{
    lemma_file_open_event_bytes(e);
    lemma_file_open_event_layout_unique(file_open_event_bytes(e), e, d);
}

/// Decodes a `FileOpenEvent` from the start of `b`; `None` when `b` is shorter than the record.
pub fn decode_file_open_event(b: &[u8]) -> (r: Option<FileOpenEvent>)
    ensures
        r is None <==> b@.len() < 312,
        r matches Some(e) ==> file_open_event_layout(b@, e),
{
    if b.len() < 312 {
        return None;
    }
    let header = match decode_header(b) {
        Some(h) => h,
        None => return None,
    };
    Some(FileOpenEvent {
        header: header,
        filename: read_array(b, 40),
        filename_len: read_u16(b, 296),
        flags: read_u32(b, 300),
        _pad: read_array(b, 304),
    })
}

impl FileOpenEvent {
    /// The record's bytes, as the probe writes them into the ring buffer.
    pub fn to_bytes(&self) -> (r: Vec<u8>)
        ensures
            r@ == file_open_event_bytes(*self),
            r@.len() == 312,
            file_open_event_layout(r@, *self),
    {
        let mut v: Vec<u8> = Vec::new();
        self.header.write_to(&mut v);
        write_bytes(&mut v, &self.filename);
        write_u16(&mut v, self.filename_len);
        write_zeros(&mut v, 2);
        write_u32(&mut v, self.flags);
        write_bytes(&mut v, &self._pad);
        write_zeros(&mut v, 6);
        proof {
            assert(v@ =~= file_open_event_bytes(*self));
            lemma_file_open_event_bytes(*self);
        }
        v
    }
}

impl Default for FileOpenEvent {
    fn default() -> (e: Self)
        ensures
            e.header == header::zero_header(),
            forall|i: int| 0 <= i < e.filename@.len() ==> e.filename@[i] == 0,
            e.filename_len == 0,
            e.flags == 0,
            forall|i: int| 0 <= i < e._pad@.len() ==> e._pad@[i] == 0,
    {
        FileOpenEvent {
            header: EventHeader::default(),
            filename: [0u8; 256],
            filename_len: 0,
            flags: 0,
            _pad: [0u8; 2],
        }
    }
}

/// Raw `sys_enter_openat2` record.
#[derive(Clone, Copy, Debug, PartialEq, Eq)]
pub struct FileOpenAt2Event {
    pub header: EventHeader,
    pub filename: [u8; PATH_LEN],
    pub filename_len: u16,
    pub flags: u64,
    pub _pad: [u8; 6],
}

impl FileOpenAt2Event {
    /// Size in bytes of the encoded record.
    pub const SIZE: u16 = 320;
}

/// `b` starts with the encoding of `e`.
pub open spec fn file_open_at2_event_layout(b: Seq<u8>, e: FileOpenAt2Event) -> bool {
    &&& b.len() >= 320
    &&& header::header_layout(b, e.header)
    &&& e.filename@ == b.subrange(40, 296)
    &&& e.filename_len == codec::u16_at(b, 296)
    &&& e.flags == codec::u64_at(b, 304)
    &&& e._pad@ == b.subrange(312, 318)
}

/// The encoding of `e`.
pub open spec fn file_open_at2_event_bytes(e: FileOpenAt2Event) -> Seq<u8> {
    header::header_bytes(e.header)
        + e.filename@
        + codec::u16_le(e.filename_len)
        + codec::zeros(6)
        + codec::u64_le(e.flags)
        + e._pad@
        + codec::zeros(2)
}

/// The encoding of a record lays out that record, and has the record's size.
#[verifier::rlimit(100)]
pub proof fn lemma_file_open_at2_event_bytes(e: FileOpenAt2Event)
    ensures
        file_open_at2_event_bytes(e).len() == 320,
        file_open_at2_event_layout(file_open_at2_event_bytes(e), e),
{
    let b = file_open_at2_event_bytes(e);
    header::lemma_header_bytes(e.header, b.skip(40));
    assert(b =~= header::header_bytes(e.header) + b.skip(40));
    assert(b.subrange(40, 296) =~= e.filename@);
    codec::lemma_u16_field(b.take(296), e.filename_len, b.skip(298));
    assert(b =~= b.take(296) + codec::u16_le(e.filename_len) + b.skip(298));
    codec::lemma_u64_field(b.take(304), e.flags, b.skip(312));
    assert(b =~= b.take(304) + codec::u64_le(e.flags) + b.skip(312));
    assert(b.subrange(312, 318) =~= e._pad@);
}

/// Two records laid out over the same bytes are equal.
pub proof fn lemma_file_open_at2_event_layout_unique(b: Seq<u8>, e1: FileOpenAt2Event, e2: FileOpenAt2Event)
    requires
        file_open_at2_event_layout(b, e1),
        file_open_at2_event_layout(b, e2),
    ensures
        e1 == e2,
{
    header::lemma_header_layout_unique(b, e1.header, e2.header);
    assert(e1.filename =~= e2.filename);
    assert(e1._pad =~= e2._pad);
}

/// What the probe writes for a record is decoded by userspace as that same record:
/// any record laid out over the encoding of `e` is `e`.
pub proof fn lemma_file_open_at2_event_roundtrip(e: FileOpenAt2Event, d: FileOpenAt2Event)
    requires
        file_open_at2_event_layout(file_open_at2_event_bytes(e), d),
    ensures
        d == e,
{
    lemma_file_open_at2_event_bytes(e);
    lemma_file_open_at2_event_layout_unique(file_open_at2_event_bytes(e), e, d);
}

/// Decodes a `FileOpenAt2Event` from the start of `b`; `None` when `b` is shorter than the record.
pub fn decode_file_open_at2_event(b: &[u8]) -> (r: Option<FileOpenAt2Event>)
    ensures
        r is None <==> b@.len() < 320,
        r matches Some(e) ==> file_open_at2_event_layout(b@, e),
{
    if b.len() < 320 {
        return None;
    }
    let header = match decode_header(b) {
        Some(h) => h,
        None => return None,
    };
    Some(FileOpenAt2Event {
        header: header,
        filename: read_array(b, 40),
        filename_len: read_u16(b, 296),
        flags: read_u64(b, 304),
        _pad: read_array(b, 312),
    })
}

impl FileOpenAt2Event {
    /// The record's bytes, as the probe writes them into the ring buffer.
    pub fn to_bytes(&self) -> (r: Vec<u8>)
        ensures
            r@ == file_open_at2_event_bytes(*self),
            r@.len() == 320,
            file_open_at2_event_layout(r@, *self),
    {
        let mut v: Vec<u8> = Vec::new();
        self.header.write_to(&mut v);
        write_bytes(&mut v, &self.filename);
        write_u16(&mut v, self.filename_len);
        write_zeros(&mut v, 6);
        write_u64(&mut v, self.flags);
        write_bytes(&mut v, &self._pad);
        write_zeros(&mut v, 2);
        proof {
            assert(v@ =~= file_open_at2_event_bytes(*self));
            lemma_file_open_at2_event_bytes(*self);
        }
        v
    }
}

impl Default for FileOpenAt2Event {
    fn default() -> (e: Self)
        ensures
            e.header == header::zero_header(),
            forall|i: int| 0 <= i < e.filename@.len() ==> e.filename@[i] == 0,
            e.filename_len == 0,
            e.flags == 0,
            forall|i: int| 0 <= i < e._pad@.len() ==> e._pad@[i] == 0,
    {
        FileOpenAt2Event {
            header: EventHeader::default(),
            filename: [0u8; 256],
            filename_len: 0,
            flags: 0,
            _pad: [0u8; 6],
        }
    }
}

/// Raw `sys_enter_write` record.
#[derive(Clone, Copy, Debug, PartialEq, Eq)]
pub struct FileWriteEvent {
    pub header: EventHeader,
    pub fd: u64,
    pub count: u64,
}

impl FileWriteEvent {
    /// Size in bytes of the encoded record.
    pub const SIZE: u16 = 56;
}

/// `b` starts with the encoding of `e`.
pub open spec fn file_write_event_layout(b: Seq<u8>, e: FileWriteEvent) -> bool {
    &&& b.len() >= 56
    &&& header::header_layout(b, e.header)
    &&& e.fd == codec::u64_at(b, 40)
    &&& e.count == codec::u64_at(b, 48)
}

/// The encoding of `e`.
pub open spec fn file_write_event_bytes(e: FileWriteEvent) -> Seq<u8> {
    header::header_bytes(e.header)
        + codec::u64_le(e.fd)
        + codec::u64_le(e.count)
}

/// The encoding of a record lays out that record, and has the record's size.
#[verifier::rlimit(100)]
pub proof fn lemma_file_write_event_bytes(e: FileWriteEvent)
    ensures
        file_write_event_bytes(e).len() == 56,
        file_write_event_layout(file_write_event_bytes(e), e),
{
    let b = file_write_event_bytes(e);
    header::lemma_header_bytes(e.header, b.skip(40));
    assert(b =~= header::header_bytes(e.header) + b.skip(40));
    codec::lemma_u64_field(b.take(40), e.fd, b.skip(48));
    assert(b =~= b.take(40) + codec::u64_le(e.fd) + b.skip(48));
    codec::lemma_u64_field(b.take(48), e.count, b.skip(56));
    assert(b =~= b.take(48) + codec::u64_le(e.count) + b.skip(56));
}

/// Two records laid out over the same bytes are equal.
pub proof fn lemma_file_write_event_layout_unique(b: Seq<u8>, e1: FileWriteEvent, e2: FileWriteEvent)
    requires
        file_write_event_layout(b, e1),
        file_write_event_layout(b, e2),
    ensures
        e1 == e2,
{
    header::lemma_header_layout_unique(b, e1.header, e2.header);
}

/// What the probe writes for a record is decoded by userspace as that same record:
/// any record laid out over the encoding of `e` is `e`.
pub proof fn lemma_file_write_event_roundtrip(e: FileWriteEvent, d: FileWriteEvent)
    requires
        file_write_event_layout(file_write_event_bytes(e), d),
    ensures
        d == e,
{
    lemma_file_write_event_bytes(e);
    lemma_file_write_event_layout_unique(file_write_event_bytes(e), e, d);
}

/// Decodes a `FileWriteEvent` from the start of `b`; `None` when `b` is shorter than the record.
pub fn decode_file_write_event(b: &[u8]) -> (r: Option<FileWriteEvent>)
    ensures
        r is None <==> b@.len() < 56,
        r matches Some(e) ==> file_write_event_layout(b@, e),
{
    if b.len() < 56 {
        return None;
    }
    let header = match decode_header(b) {
        Some(h) => h,
        None => return None,
    };
    Some(FileWriteEvent {
        header: header,
        fd: read_u64(b, 40),
        count: read_u64(b, 48),
    })
}

impl FileWriteEvent {
    /// The record's bytes, as the probe writes them into the ring buffer.
    pub fn to_bytes(&self) -> (r: Vec<u8>)
        ensures
            r@ == file_write_event_bytes(*self),
            r@.len() == 56,
            file_write_event_layout(r@, *self),
    {
        let mut v: Vec<u8> = Vec::new();
        self.header.write_to(&mut v);
        write_u64(&mut v, self.fd);
        write_u64(&mut v, self.count);
        proof {
            assert(v@ =~= file_write_event_bytes(*self));
            lemma_file_write_event_bytes(*self);
        }
        v
    }
}

impl Default for FileWriteEvent {
    fn default() -> (e: Self)
        ensures
            e.header == header::zero_header(),
            e.fd == 0,
            e.count == 0,
    {
        FileWriteEvent {
            header: EventHeader::default(),
            fd: 0,
            count: 0,
        }
    }
}

/// Raw `sys_enter_writev` record.
#[derive(Clone, Copy, Debug, PartialEq, Eq)]
pub struct FileWriteVEvent {
    pub header: EventHeader,
    pub fd: u64,
    pub iovcnt: i64,
}

impl FileWriteVEvent {
    /// Size in bytes of the encoded record.
    pub const SIZE: u16 = 56;
}

/// `b` starts with the encoding of `e`.
pub open spec fn file_write_v_event_layout(b: Seq<u8>, e: FileWriteVEvent) -> bool {
    &&& b.len() >= 56
    &&& header::header_layout(b, e.header)
    &&& e.fd == codec::u64_at(b, 40)
    &&& e.iovcnt == codec::i64_at(b, 48)
}

/// The encoding of `e`.
pub open spec fn file_write_v_event_bytes(e: FileWriteVEvent) -> Seq<u8> {
    header::header_bytes(e.header)
        + codec::u64_le(e.fd)
        + codec::u64_le(e.iovcnt as u64)
}

/// The encoding of a record lays out that record, and has the record's size.
#[verifier::rlimit(100)]
pub proof fn lemma_file_write_v_event_bytes(e: FileWriteVEvent)
    ensures
        file_write_v_event_bytes(e).len() == 56,
        file_write_v_event_layout(file_write_v_event_bytes(e), e),
{
    let b = file_write_v_event_bytes(e);
    header::lemma_header_bytes(e.header, b.skip(40));
    assert(b =~= header::header_bytes(e.header) + b.skip(40));
    codec::lemma_u64_field(b.take(40), e.fd, b.skip(48));
    assert(b =~= b.take(40) + codec::u64_le(e.fd) + b.skip(48));
    codec::lemma_u64_field(b.take(48), e.iovcnt as u64, b.skip(56));
    assert(b =~= b.take(48) + codec::u64_le(e.iovcnt as u64) + b.skip(56));
    codec::lemma_i64_cast(e.iovcnt);
}

/// Two records laid out over the same bytes are equal.
pub proof fn lemma_file_write_v_event_layout_unique(b: Seq<u8>, e1: FileWriteVEvent, e2: FileWriteVEvent)
    requires
        file_write_v_event_layout(b, e1),
        file_write_v_event_layout(b, e2),
    ensures
        e1 == e2,
{
    header::lemma_header_layout_unique(b, e1.header, e2.header);
}

/// What the probe writes for a record is decoded by userspace as that same record:
/// any record laid out over the encoding of `e` is `e`.
pub proof fn lemma_file_write_v_event_roundtrip(e: FileWriteVEvent, d: FileWriteVEvent)
    requires
        file_write_v_event_layout(file_write_v_event_bytes(e), d),
    ensures
        d == e,
{
    lemma_file_write_v_event_bytes(e);
    lemma_file_write_v_event_layout_unique(file_write_v_event_bytes(e), e, d);
}

/// Decodes a `FileWriteVEvent` from the start of `b`; `None` when `b` is shorter than the record.
pub fn decode_file_write_v_event(b: &[u8]) -> (r: Option<FileWriteVEvent>)
    ensures
        r is None <==> b@.len() < 56,
        r matches Some(e) ==> file_write_v_event_layout(b@, e),
{
    if b.len() < 56 {
        return None;
    }
    let header = match decode_header(b) {
        Some(h) => h,
        None => return None,
    };
    Some(FileWriteVEvent {
        header: header,
        fd: read_u64(b, 40),
        iovcnt: read_i64(b, 48),
    })
}

impl FileWriteVEvent {
    /// The record's bytes, as the probe writes them into the ring buffer.
    pub fn to_bytes(&self) -> (r: Vec<u8>)
        ensures
            r@ == file_write_v_event_bytes(*self),
            r@.len() == 56,
            file_write_v_event_layout(r@, *self),
    {
        let mut v: Vec<u8> = Vec::new();
        self.header.write_to(&mut v);
        write_u64(&mut v, self.fd);
        write_u64(&mut v, self.iovcnt as u64);
        proof {
            assert(v@ =~= file_write_v_event_bytes(*self));
            lemma_file_write_v_event_bytes(*self);
        }
        v
    }
}

impl Default for FileWriteVEvent {
    fn default() -> (e: Self)
        ensures
            e.header == header::zero_header(),
            e.fd == 0,
            e.iovcnt == 0,
    {
        FileWriteVEvent {
            header: EventHeader::default(),
            fd: 0,
            iovcnt: 0,
        }
    }
}

/// Raw `sys_enter_pwrite64` record.
#[derive(Clone, Copy, Debug, PartialEq, Eq)]
pub struct FilePWrite64Event {
    pub header: EventHeader,
    pub fd: u64,
    pub count: u64,
    pub pos: i64,
}

impl FilePWrite64Event {
    /// Size in bytes of the encoded record.
    pub const SIZE: u16 = 64;
}

/// `b` starts with the encoding of `e`.
pub open spec fn file_pwrite64_event_layout(b: Seq<u8>, e: FilePWrite64Event) -> bool {
    &&& b.len() >= 64
    &&& header::header_layout(b, e.header)
    &&& e.fd == codec::u64_at(b, 40)
    &&& e.count == codec::u64_at(b, 48)
    &&& e.pos == codec::i64_at(b, 56)
}

/// The encoding of `e`.
pub open spec fn file_pwrite64_event_bytes(e: FilePWrite64Event) -> Seq<u8> {
    header::header_bytes(e.header)
        + codec::u64_le(e.fd)
        + codec::u64_le(e.count)
        + codec::u64_le(e.pos as u64)
}

/// The encoding of a record lays out that record, and has the record's size.
#[verifier::rlimit(100)]
pub proof fn lemma_file_pwrite64_event_bytes(e: FilePWrite64Event)
    ensures
        file_pwrite64_event_bytes(e).len() == 64,
        file_pwrite64_event_layout(file_pwrite64_event_bytes(e), e),
{
    let b = file_pwrite64_event_bytes(e);
    header::lemma_header_bytes(e.header, b.skip(40));
    assert(b =~= header::header_bytes(e.header) + b.skip(40));
    codec::lemma_u64_field(b.take(40), e.fd, b.skip(48));
    assert(b =~= b.take(40) + codec::u64_le(e.fd) + b.skip(48));
    codec::lemma_u64_field(b.take(48), e.count, b.skip(56));
    assert(b =~= b.take(48) + codec::u64_le(e.count) + b.skip(56));
    codec::lemma_u64_field(b.take(56), e.pos as u64, b.skip(64));
    assert(b =~= b.take(56) + codec::u64_le(e.pos as u64) + b.skip(64));
    codec::lemma_i64_cast(e.pos);
}

/// Two records laid out over the same bytes are equal.
pub proof fn lemma_file_pwrite64_event_layout_unique(b: Seq<u8>, e1: FilePWrite64Event, e2: FilePWrite64Event)
    requires
        file_pwrite64_event_layout(b, e1),
        file_pwrite64_event_layout(b, e2),
    ensures
        e1 == e2,
{
    header::lemma_header_layout_unique(b, e1.header, e2.header);
}

/// What the probe writes for a record is decoded by userspace as that same record:
/// any record laid out over the encoding of `e` is `e`.
pub proof fn lemma_file_pwrite64_event_roundtrip(e: FilePWrite64Event, d: FilePWrite64Event)
    requires
        file_pwrite64_event_layout(file_pwrite64_event_bytes(e), d),
    ensures
        d == e,
{
    lemma_file_pwrite64_event_bytes(e);
    lemma_file_pwrite64_event_layout_unique(file_pwrite64_event_bytes(e), e, d);
}

/// Decodes a `FilePWrite64Event` from the start of `b`; `None` when `b` is shorter than the record.
pub fn decode_file_pwrite64_event(b: &[u8]) -> (r: Option<FilePWrite64Event>)
    ensures
        r is None <==> b@.len() < 64,
        r matches Some(e) ==> file_pwrite64_event_layout(b@, e),
{
    if b.len() < 64 {
        return None;
    }
    let header = match decode_header(b) {
        Some(h) => h,
        None => return None,
    };
    Some(FilePWrite64Event {
        header: header,
        fd: read_u64(b, 40),
        count: read_u64(b, 48),
        pos: read_i64(b, 56),
    })
}

impl FilePWrite64Event {
    /// The record's bytes, as the probe writes them into the ring buffer.
    pub fn to_bytes(&self) -> (r: Vec<u8>)
        ensures
            r@ == file_pwrite64_event_bytes(*self),
            r@.len() == 64,
            file_pwrite64_event_layout(r@, *self),
    {
        let mut v: Vec<u8> = Vec::new();
        self.header.write_to(&mut v);
        write_u64(&mut v, self.fd);
        write_u64(&mut v, self.count);
        write_u64(&mut v, self.pos as u64);
        proof {
            assert(v@ =~= file_pwrite64_event_bytes(*self));
            lemma_file_pwrite64_event_bytes(*self);
        }
        v
    }
}

impl Default for FilePWrite64Event {
    fn default() -> (e: Self)
        ensures
            e.header == header::zero_header(),
            e.fd == 0,
            e.count == 0,
            e.pos == 0,
    {
        FilePWrite64Event {
            header: EventHeader::default(),
            fd: 0,
            count: 0,
            pos: 0,
        }
    }
}

/// Raw `sys_enter_rename` record.
#[derive(Clone, Copy, Debug, PartialEq, Eq)]
pub struct FileRenameEvent {
    pub header: EventHeader,
    pub old_filename: [u8; PATH_LEN],
    pub old_filename_len: u16,
    pub new_filename: [u8; PATH_LEN],
    pub new_filename_len: u16,
    pub _pad: [u8; 4],
}

impl FileRenameEvent {
    /// Size in bytes of the encoded record.
    pub const SIZE: u16 = 560;
}

/// `b` starts with the encoding of `e`.
pub open spec fn file_rename_event_layout(b: Seq<u8>, e: FileRenameEvent) -> bool {
    &&& b.len() >= 560
    &&& header::header_layout(b, e.header)
    &&& e.old_filename@ == b.subrange(40, 296)
    &&& e.old_filename_len == codec::u16_at(b, 296)
    &&& e.new_filename@ == b.subrange(298, 554)
    &&& e.new_filename_len == codec::u16_at(b, 554)
    &&& e._pad@ == b.subrange(556, 560)
}

/// The encoding of `e`.
pub open spec fn file_rename_event_bytes(e: FileRenameEvent) -> Seq<u8> {
    header::header_bytes(e.header)
        + e.old_filename@
        + codec::u16_le(e.old_filename_len)
        + e.new_filename@
        + codec::u16_le(e.new_filename_len)
        + e._pad@
}

/// The encoding of a record lays out that record, and has the record's size.
#[verifier::rlimit(100)]
pub proof fn lemma_file_rename_event_bytes(e: FileRenameEvent)
    ensures
        file_rename_event_bytes(e).len() == 560,
        file_rename_event_layout(file_rename_event_bytes(e), e),
{
    let b = file_rename_event_bytes(e);
    header::lemma_header_bytes(e.header, b.skip(40));
    assert(b =~= header::header_bytes(e.header) + b.skip(40));
    assert(b.subrange(40, 296) =~= e.old_filename@);
    codec::lemma_u16_field(b.take(296), e.old_filename_len, b.skip(298));
    assert(b =~= b.take(296) + codec::u16_le(e.old_filename_len) + b.skip(298));
    assert(b.subrange(298, 554) =~= e.new_filename@);
    codec::lemma_u16_field(b.take(554), e.new_filename_len, b.skip(556));
    assert(b =~= b.take(554) + codec::u16_le(e.new_filename_len) + b.skip(556));
    assert(b.subrange(556, 560) =~= e._pad@);
}

/// Two records laid out over the same bytes are equal.
pub proof fn lemma_file_rename_event_layout_unique(b: Seq<u8>, e1: FileRenameEvent, e2: FileRenameEvent)
    requires
        file_rename_event_layout(b, e1),
        file_rename_event_layout(b, e2),
    ensures
        e1 == e2,
{
    header::lemma_header_layout_unique(b, e1.header, e2.header);
    assert(e1.old_filename =~= e2.old_filename);
    assert(e1.new_filename =~= e2.new_filename);
    assert(e1._pad =~= e2._pad);
}

/// What the probe writes for a record is decoded by userspace as that same record:
/// any record laid out over the encoding of `e` is `e`.
pub proof fn lemma_file_rename_event_roundtrip(e: FileRenameEvent, d: FileRenameEvent)
    requires
        file_rename_event_layout(file_rename_event_bytes(e), d),
    ensures
        d == e,
{
    lemma_file_rename_event_bytes(e);
    lemma_file_rename_event_layout_unique(file_rename_event_bytes(e), e, d);
}

/// Decodes a `FileRenameEvent` from the start of `b`; `None` when `b` is shorter than the record.
pub fn decode_file_rename_event(b: &[u8]) -> (r: Option<FileRenameEvent>)
    ensures
        r is None <==> b@.len() < 560,
        r matches Some(e) ==> file_rename_event_layout(b@, e),
{
    if b.len() < 560 {
        return None;
    }
    let header = match decode_header(b) {
        Some(h) => h,
        None => return None,
    };
    Some(FileRenameEvent {
        header: header,
        old_filename: read_array(b, 40),
        old_filename_len: read_u16(b, 296),
        new_filename: read_array(b, 298),
        new_filename_len: read_u16(b, 554),
        _pad: read_array(b, 556),
    })
}

impl FileRenameEvent {
    /// The record's bytes, as the probe writes them into the ring buffer.
    pub fn to_bytes(&self) -> (r: Vec<u8>)
        ensures
            r@ == file_rename_event_bytes(*self),
            r@.len() == 560,
            file_rename_event_layout(r@, *self),
    {
        let mut v: Vec<u8> = Vec::new();
        self.header.write_to(&mut v);
        write_bytes(&mut v, &self.old_filename);
        write_u16(&mut v, self.old_filename_len);
        write_bytes(&mut v, &self.new_filename);
        write_u16(&mut v, self.new_filename_len);
        write_bytes(&mut v, &self._pad);
        proof {
            assert(v@ =~= file_rename_event_bytes(*self));
            lemma_file_rename_event_bytes(*self);
        }
        v
    }
}

impl Default for FileRenameEvent {
    fn default() -> (e: Self)
        ensures
            e.header == header::zero_header(),
            forall|i: int| 0 <= i < e.old_filename@.len() ==> e.old_filename@[i] == 0,
            e.old_filename_len == 0,
            forall|i: int| 0 <= i < e.new_filename@.len() ==> e.new_filename@[i] == 0,
            e.new_filename_len == 0,
            forall|i: int| 0 <= i < e._pad@.len() ==> e._pad@[i] == 0,
    {
        FileRenameEvent {
            header: EventHeader::default(),
            old_filename: [0u8; 256],
            old_filename_len: 0,
            new_filename: [0u8; 256],
            new_filename_len: 0,
            _pad: [0u8; 4],
        }
    }
}

/// Raw `sys_enter_renameat` record.
#[derive(Clone, Copy, Debug, PartialEq, Eq)]
pub struct FileRenameAtEvent {
    pub header: EventHeader,
    pub old_filename: [u8; PATH_LEN],
    pub old_filename_len: u16,
    pub new_filename: [u8; PATH_LEN],
    pub new_filename_len: u16,
    pub _pad: [u8; 4],
}

impl FileRenameAtEvent {
    /// Size in bytes of the encoded record.
    pub const SIZE: u16 = 560;
}

/// `b` starts with the encoding of `e`.
pub open spec fn file_rename_at_event_layout(b: Seq<u8>, e: FileRenameAtEvent) -> bool {
    &&& b.len() >= 560
    &&& header::header_layout(b, e.header)
    &&& e.old_filename@ == b.subrange(40, 296)
    &&& e.old_filename_len == codec::u16_at(b, 296)
    &&& e.new_filename@ == b.subrange(298, 554)
    &&& e.new_filename_len == codec::u16_at(b, 554)
    &&& e._pad@ == b.subrange(556, 560)
}

/// The encoding of `e`.
pub open spec fn file_rename_at_event_bytes(e: FileRenameAtEvent) -> Seq<u8> {
    header::header_bytes(e.header)
        + e.old_filename@
        + codec::u16_le(e.old_filename_len)
        + e.new_filename@
        + codec::u16_le(e.new_filename_len)
        + e._pad@
}

/// The encoding of a record lays out that record, and has the record's size.
#[verifier::rlimit(100)]
pub proof fn lemma_file_rename_at_event_bytes(e: FileRenameAtEvent)
    ensures
        file_rename_at_event_bytes(e).len() == 560,
        file_rename_at_event_layout(file_rename_at_event_bytes(e), e),
{
    let b = file_rename_at_event_bytes(e);
    header::lemma_header_bytes(e.header, b.skip(40));
    assert(b =~= header::header_bytes(e.header) + b.skip(40));
    assert(b.subrange(40, 296) =~= e.old_filename@);
    codec::lemma_u16_field(b.take(296), e.old_filename_len, b.skip(298));
    assert(b =~= b.take(296) + codec::u16_le(e.old_filename_len) + b.skip(298));
    assert(b.subrange(298, 554) =~= e.new_filename@);
    codec::lemma_u16_field(b.take(554), e.new_filename_len, b.skip(556));
    assert(b =~= b.take(554) + codec::u16_le(e.new_filename_len) + b.skip(556));
    assert(b.subrange(556, 560) =~= e._pad@);
}

/// Two records laid out over the same bytes are equal.
pub proof fn lemma_file_rename_at_event_layout_unique(b: Seq<u8>, e1: FileRenameAtEvent, e2: FileRenameAtEvent)
    requires
        file_rename_at_event_layout(b, e1),
        file_rename_at_event_layout(b, e2),
    ensures
        e1 == e2,
{
    header::lemma_header_layout_unique(b, e1.header, e2.header);
    assert(e1.old_filename =~= e2.old_filename);
    assert(e1.new_filename =~= e2.new_filename);
    assert(e1._pad =~= e2._pad);
}

/// What the probe writes for a record is decoded by userspace as that same record:
/// any record laid out over the encoding of `e` is `e`.
pub proof fn lemma_file_rename_at_event_roundtrip(e: FileRenameAtEvent, d: FileRenameAtEvent)
    requires
        file_rename_at_event_layout(file_rename_at_event_bytes(e), d),
    ensures
        d == e,
{
    lemma_file_rename_at_event_bytes(e);
    lemma_file_rename_at_event_layout_unique(file_rename_at_event_bytes(e), e, d);
}

/// Decodes a `FileRenameAtEvent` from the start of `b`; `None` when `b` is shorter than the record.
pub fn decode_file_rename_at_event(b: &[u8]) -> (r: Option<FileRenameAtEvent>)
    ensures
        r is None <==> b@.len() < 560,
        r matches Some(e) ==> file_rename_at_event_layout(b@, e),
{
    if b.len() < 560 {
        return None;
    }
    let header = match decode_header(b) {
        Some(h) => h,
        None => return None,
    };
    Some(FileRenameAtEvent {
        header: header,
        old_filename: read_array(b, 40),
        old_filename_len: read_u16(b, 296),
        new_filename: read_array(b, 298),
        new_filename_len: read_u16(b, 554),
        _pad: read_array(b, 556),
    })
}

impl FileRenameAtEvent {
    /// The record's bytes, as the probe writes them into the ring buffer.
    pub fn to_bytes(&self) -> (r: Vec<u8>)
        ensures
            r@ == file_rename_at_event_bytes(*self),
            r@.len() == 560,
            file_rename_at_event_layout(r@, *self),
    {
        let mut v: Vec<u8> = Vec::new();
        self.header.write_to(&mut v);
        write_bytes(&mut v, &self.old_filename);
        write_u16(&mut v, self.old_filename_len);
        write_bytes(&mut v, &self.new_filename);
        write_u16(&mut v, self.new_filename_len);
        write_bytes(&mut v, &self._pad);
        proof {
            assert(v@ =~= file_rename_at_event_bytes(*self));
            lemma_file_rename_at_event_bytes(*self);
        }
        v
    }
}

impl Default for FileRenameAtEvent {
    fn default() -> (e: Self)
        ensures
            e.header == header::zero_header(),
            forall|i: int| 0 <= i < e.old_filename@.len() ==> e.old_filename@[i] == 0,
            e.old_filename_len == 0,
            forall|i: int| 0 <= i < e.new_filename@.len() ==> e.new_filename@[i] == 0,
            e.new_filename_len == 0,
            forall|i: int| 0 <= i < e._pad@.len() ==> e._pad@[i] == 0,
    {
        FileRenameAtEvent {
            header: EventHeader::default(),
            old_filename: [0u8; 256],
            old_filename_len: 0,
            new_filename: [0u8; 256],
            new_filename_len: 0,
            _pad: [0u8; 4],
        }
    }
}

/// Raw `sys_enter_renameat2` record.
#[derive(Clone, Copy, Debug, PartialEq, Eq)]
pub struct FileRenameAt2Event {
    pub header: EventHeader,
    pub old_filename: [u8; PATH_LEN],
    pub old_filename_len: u16,
    pub new_filename: [u8; PATH_LEN],
    pub new_filename_len: u16,
    pub flags: u32,
    pub _pad: [u8; 4],
}

impl FileRenameAt2Event {
    /// Size in bytes of the encoded record.
    pub const SIZE: u16 = 568;
}

/// `b` starts with the encoding of `e`.
pub open spec fn file_rename_at2_event_layout(b: Seq<u8>, e: FileRenameAt2Event) -> bool {
    &&& b.len() >= 568
    &&& header::header_layout(b, e.header)
    &&& e.old_filename@ == b.subrange(40, 296)
    &&& e.old_filename_len == codec::u16_at(b, 296)
    &&& e.new_filename@ == b.subrange(298, 554)
    &&& e.new_filename_len == codec::u16_at(b, 554)
    &&& e.flags == codec::u32_at(b, 556)
    &&& e._pad@ == b.subrange(560, 564)
}

/// The encoding of `e`.
pub open spec fn file_rename_at2_event_bytes(e: FileRenameAt2Event) -> Seq<u8> {
    header::header_bytes(e.header)
        + e.old_filename@
        + codec::u16_le(e.old_filename_len)
        + e.new_filename@
        + codec::u16_le(e.new_filename_len)
        + codec::u32_le(e.flags)
        + e._pad@
        + codec::zeros(4)
}

/// The encoding of a record lays out that record, and has the record's size.
#[verifier::rlimit(100)]
pub proof fn lemma_file_rename_at2_event_bytes(e: FileRenameAt2Event)
    ensures
        file_rename_at2_event_bytes(e).len() == 568,
        file_rename_at2_event_layout(file_rename_at2_event_bytes(e), e),
{
    let b = file_rename_at2_event_bytes(e);
    header::lemma_header_bytes(e.header, b.skip(40));
    assert(b =~= header::header_bytes(e.header) + b.skip(40));
    assert(b.subrange(40, 296) =~= e.old_filename@);
    codec::lemma_u16_field(b.take(296), e.old_filename_len, b.skip(298));
    assert(b =~= b.take(296) + codec::u16_le(e.old_filename_len) + b.skip(298));
    assert(b.subrange(298, 554) =~= e.new_filename@);
    codec::lemma_u16_field(b.take(554), e.new_filename_len, b.skip(556));
    assert(b =~= b.take(554) + codec::u16_le(e.new_filename_len) + b.skip(556));
    codec::lemma_u32_field(b.take(556), e.flags, b.skip(560));
    assert(b =~= b.take(556) + codec::u32_le(e.flags) + b.skip(560));
    assert(b.subrange(560, 564) =~= e._pad@);
}

/// Two records laid out over the same bytes are equal.
pub proof fn lemma_file_rename_at2_event_layout_unique(b: Seq<u8>, e1: FileRenameAt2Event, e2: FileRenameAt2Event)
    requires
        file_rename_at2_event_layout(b, e1),
        file_rename_at2_event_layout(b, e2),
    ensures
        e1 == e2,
{
    header::lemma_header_layout_unique(b, e1.header, e2.header);
    assert(e1.old_filename =~= e2.old_filename);
    assert(e1.new_filename =~= e2.new_filename);
    assert(e1._pad =~= e2._pad);
}

/// What the probe writes for a record is decoded by userspace as that same record:
/// any record laid out over the encoding of `e` is `e`.
pub proof fn lemma_file_rename_at2_event_roundtrip(e: FileRenameAt2Event, d: FileRenameAt2Event)
    requires
        file_rename_at2_event_layout(file_rename_at2_event_bytes(e), d),
    ensures
        d == e,
{
    lemma_file_rename_at2_event_bytes(e);
    lemma_file_rename_at2_event_layout_unique(file_rename_at2_event_bytes(e), e, d);
}

/// Decodes a `FileRenameAt2Event` from the start of `b`; `None` when `b` is shorter than the record.
pub fn decode_file_rename_at2_event(b: &[u8]) -> (r: Option<FileRenameAt2Event>)
    ensures
        r is None <==> b@.len() < 568,
        r matches Some(e) ==> file_rename_at2_event_layout(b@, e),
{
    if b.len() < 568 {
        return None;
    }
    let header = match decode_header(b) {
        Some(h) => h,
        None => return None,
    };
    Some(FileRenameAt2Event {
        header: header,
        old_filename: read_array(b, 40),
        old_filename_len: read_u16(b, 296),
        new_filename: read_array(b, 298),
        new_filename_len: read_u16(b, 554),
        flags: read_u32(b, 556),
        _pad: read_array(b, 560),
    })
}

impl FileRenameAt2Event {
    /// The record's bytes, as the probe writes them into the ring buffer.
    pub fn to_bytes(&self) -> (r: Vec<u8>)
        ensures
            r@ == file_rename_at2_event_bytes(*self),
            r@.len() == 568,
            file_rename_at2_event_layout(r@, *self),
    {
        let mut v: Vec<u8> = Vec::new();
        self.header.write_to(&mut v);
        write_bytes(&mut v, &self.old_filename);
        write_u16(&mut v, self.old_filename_len);
        write_bytes(&mut v, &self.new_filename);
        write_u16(&mut v, self.new_filename_len);
        write_u32(&mut v, self.flags);
        write_bytes(&mut v, &self._pad);
        write_zeros(&mut v, 4);
        proof {
            assert(v@ =~= file_rename_at2_event_bytes(*self));
            lemma_file_rename_at2_event_bytes(*self);
        }
        v
    }
}

impl Default for FileRenameAt2Event {
    fn default() -> (e: Self)
        ensures
            e.header == header::zero_header(),
            forall|i: int| 0 <= i < e.old_filename@.len() ==> e.old_filename@[i] == 0,
            e.old_filename_len == 0,
            forall|i: int| 0 <= i < e.new_filename@.len() ==> e.new_filename@[i] == 0,
            e.new_filename_len == 0,
            e.flags == 0,
            forall|i: int| 0 <= i < e._pad@.len() ==> e._pad@[i] == 0,
    {
        FileRenameAt2Event {
            header: EventHeader::default(),
            old_filename: [0u8; 256],
            old_filename_len: 0,
            new_filename: [0u8; 256],
            new_filename_len: 0,
            flags: 0,
            _pad: [0u8; 4],
        }
    }
}

/// Raw `sys_enter_unlink` record.
#[derive(Clone, Copy, Debug, PartialEq, Eq)]
pub struct FileUnlinkEvent {
    pub header: EventHeader,
    pub filename: [u8; PATH_LEN],
    pub filename_len: u16,
    pub _pad: [u8; 6],
}

impl FileUnlinkEvent {
    /// Size in bytes of the encoded record.
    pub const SIZE: u16 = 304;
}

/// `b` starts with the encoding of `e`.
pub open spec fn file_unlink_event_layout(b: Seq<u8>, e: FileUnlinkEvent) -> bool {
    &&& b.len() >= 304
    &&& header::header_layout(b, e.header)
    &&& e.filename@ == b.subrange(40, 296)
    &&& e.filename_len == codec::u16_at(b, 296)
    &&& e._pad@ == b.subrange(298, 304)
}

/// The encoding of `e`.
pub open spec fn file_unlink_event_bytes(e: FileUnlinkEvent) -> Seq<u8> {
    header::header_bytes(e.header)
        + e.filename@
        + codec::u16_le(e.filename_len)
        + e._pad@
}

/// The encoding of a record lays out that record, and has the record's size.
#[verifier::rlimit(100)]
pub proof fn lemma_file_unlink_event_bytes(e: FileUnlinkEvent)
    ensures
        file_unlink_event_bytes(e).len() == 304,
        file_unlink_event_layout(file_unlink_event_bytes(e), e),
{
    let b = file_unlink_event_bytes(e);
    header::lemma_header_bytes(e.header, b.skip(40));
    assert(b =~= header::header_bytes(e.header) + b.skip(40));
    assert(b.subrange(40, 296) =~= e.filename@);
    codec::lemma_u16_field(b.take(296), e.filename_len, b.skip(298));
    assert(b =~= b.take(296) + codec::u16_le(e.filename_len) + b.skip(298));
    assert(b.subrange(298, 304) =~= e._pad@);
}

/// Two records laid out over the same bytes are equal.
pub proof fn lemma_file_unlink_event_layout_unique(b: Seq<u8>, e1: FileUnlinkEvent, e2: FileUnlinkEvent)
    requires
        file_unlink_event_layout(b, e1),
        file_unlink_event_layout(b, e2),
    ensures
        e1 == e2,
{
    header::lemma_header_layout_unique(b, e1.header, e2.header);
    assert(e1.filename =~= e2.filename);
    assert(e1._pad =~= e2._pad);
}

/// What the probe writes for a record is decoded by userspace as that same record:
/// any record laid out over the encoding of `e` is `e`.
pub proof fn lemma_file_unlink_event_roundtrip(e: FileUnlinkEvent, d: FileUnlinkEvent)
    requires
        file_unlink_event_layout(file_unlink_event_bytes(e), d),
    ensures
        d == e,
{
    lemma_file_unlink_event_bytes(e);
    lemma_file_unlink_event_layout_unique(file_unlink_event_bytes(e), e, d);
}

/// Decodes a `FileUnlinkEvent` from the start of `b`; `None` when `b` is shorter than the record.
pub fn decode_file_unlink_event(b: &[u8]) -> (r: Option<FileUnlinkEvent>)
    ensures
        r is None <==> b@.len() < 304,
        r matches Some(e) ==> file_unlink_event_layout(b@, e),
{
    if b.len() < 304 {
        return None;
    }
    let header = match decode_header(b) {
        Some(h) => h,
        None => return None,
    };
    Some(FileUnlinkEvent {
        header: header,
        filename: read_array(b, 40),
        filename_len: read_u16(b, 296),
        _pad: read_array(b, 298),
    })
}

impl FileUnlinkEvent {
    /// The record's bytes, as the probe writes them into the ring buffer.
    pub fn to_bytes(&self) -> (r: Vec<u8>)
        ensures
            r@ == file_unlink_event_bytes(*self),
            r@.len() == 304,
            file_unlink_event_layout(r@, *self),
    {
        let mut v: Vec<u8> = Vec::new();
        self.header.write_to(&mut v);
        write_bytes(&mut v, &self.filename);
        write_u16(&mut v, self.filename_len);
        write_bytes(&mut v, &self._pad);
        proof {
            assert(v@ =~= file_unlink_event_bytes(*self));
            lemma_file_unlink_event_bytes(*self);
        }
        v
    }
}

impl Default for FileUnlinkEvent {
    fn default() -> (e: Self)
        ensures
            e.header == header::zero_header(),
            forall|i: int| 0 <= i < e.filename@.len() ==> e.filename@[i] == 0,
            e.filename_len == 0,
            forall|i: int| 0 <= i < e._pad@.len() ==> e._pad@[i] == 0,
    {
        FileUnlinkEvent {
            header: EventHeader::default(),
            filename: [0u8; 256],
            filename_len: 0,
            _pad: [0u8; 6],
        }
    }
}

/// Raw `sys_enter_unlinkat` record.
#[derive(Clone, Copy, Debug, PartialEq, Eq)]
pub struct FileUnlinkAtEvent {
    pub header: EventHeader,
    pub filename: [u8; PATH_LEN],
    pub filename_len: u16,
    pub flags: u32,
    pub _pad: [u8; 2],
}

impl FileUnlinkAtEvent {
    /// Size in bytes of the encoded record.
    pub const SIZE: u16 = 312;
}

/// `b` starts with the encoding of `e`.
pub open spec fn file_unlink_at_event_layout(b: Seq<u8>, e: FileUnlinkAtEvent) -> bool {
    &&& b.len() >= 312
    &&& header::header_layout(b, e.header)
    &&& e.filename@ == b.subrange(40, 296)
    &&& e.filename_len == codec::u16_at(b, 296)
    &&& e.flags == codec::u32_at(b, 300)
    &&& e._pad@ == b.subrange(304, 306)
}

/// The encoding of `e`.
pub open spec fn file_unlink_at_event_bytes(e: FileUnlinkAtEvent) -> Seq<u8> {
    header::header_bytes(e.header)
        + e.filename@
        + codec::u16_le(e.filename_len)
        + codec::zeros(2)
        + codec::u32_le(e.flags)
        + e._pad@
        + codec::zeros(6)
}

/// The encoding of a record lays out that record, and has the record's size.
#[verifier::rlimit(100)]
pub proof fn lemma_file_unlink_at_event_bytes(e: FileUnlinkAtEvent)
    ensures
        file_unlink_at_event_bytes(e).len() == 312,
        file_unlink_at_event_layout(file_unlink_at_event_bytes(e), e),
{
    let b = file_unlink_at_event_bytes(e);
    header::lemma_header_bytes(e.header, b.skip(40));
    assert(b =~= header::header_bytes(e.header) + b.skip(40));
    assert(b.subrange(40, 296) =~= e.filename@);
    codec::lemma_u16_field(b.take(296), e.filename_len, b.skip(298));
    assert(b =~= b.take(296) + codec::u16_le(e.filename_len) + b.skip(298));
    codec::lemma_u32_field(b.take(300), e.flags, b.skip(304));
    assert(b =~= b.take(300) + codec::u32_le(e.flags) + b.skip(304));
    assert(b.subrange(304, 306) =~= e._pad@);
}

/// Two records laid out over the same bytes are equal.
pub proof fn lemma_file_unlink_at_event_layout_unique(b: Seq<u8>, e1: FileUnlinkAtEvent, e2: FileUnlinkAtEvent)
    requires
        file_unlink_at_event_layout(b, e1),
        file_unlink_at_event_layout(b, e2),
    ensures
        e1 == e2,
{
    header::lemma_header_layout_unique(b, e1.header, e2.header);
    assert(e1.filename =~= e2.filename);
    assert(e1._pad =~= e2._pad);
}

/// What the probe writes for a record is decoded by userspace as that same record:
/// any record laid out over the encoding of `e` is `e`.
pub proof fn lemma_file_unlink_at_event_roundtrip(e: FileUnlinkAtEvent, d: FileUnlinkAtEvent)
    requires
        file_unlink_at_event_layout(file_unlink_at_event_bytes(e), d),
    ensures
        d == e,
{
    lemma_file_unlink_at_event_bytes(e);
    lemma_file_unlink_at_event_layout_unique(file_unlink_at_event_bytes(e), e, d);
}

/// Decodes a `FileUnlinkAtEvent` from the start of `b`; `None` when `b` is shorter than the record.
pub fn decode_file_unlink_at_event(b: &[u8]) -> (r: Option<FileUnlinkAtEvent>)
    ensures
        r is None <==> b@.len() < 312,
        r matches Some(e) ==> file_unlink_at_event_layout(b@, e),
{
    if b.len() < 312 {
        return None;
    }
    let header = match decode_header(b) {
        Some(h) => h,
        None => return None,
    };
    Some(FileUnlinkAtEvent {
        header: header,
        filename: read_array(b, 40),
        filename_len: read_u16(b, 296),
        flags: read_u32(b, 300),
        _pad: read_array(b, 304),
    })
}

impl FileUnlinkAtEvent {
    /// The record's bytes, as the probe writes them into the ring buffer.
    pub fn to_bytes(&self) -> (r: Vec<u8>)
        ensures
            r@ == file_unlink_at_event_bytes(*self),
            r@.len() == 312,
            file_unlink_at_event_layout(r@, *self),
    {
        let mut v: Vec<u8> = Vec::new();
        self.header.write_to(&mut v);
        write_bytes(&mut v, &self.filename);
        write_u16(&mut v, self.filename_len);
        write_zeros(&mut v, 2);
        write_u32(&mut v, self.flags);
        write_bytes(&mut v, &self._pad);
        write_zeros(&mut v, 6);
        proof {
            assert(v@ =~= file_unlink_at_event_bytes(*self));
            lemma_file_unlink_at_event_bytes(*self);
        }
        v
    }
}

impl Default for FileUnlinkAtEvent {
    fn default() -> (e: Self)
        ensures
            e.header == header::zero_header(),
            forall|i: int| 0 <= i < e.filename@.len() ==> e.filename@[i] == 0,
            e.filename_len == 0,
            e.flags == 0,
            forall|i: int| 0 <= i < e._pad@.len() ==> e._pad@[i] == 0,
    {
        FileUnlinkAtEvent {
            header: EventHeader::default(),
            filename: [0u8; 256],
            filename_len: 0,
            flags: 0,
            _pad: [0u8; 2],
        }
    }
}

} // verus!
