//! Process-lifecycle records.
use vstd::prelude::*;
use crate::abi::codec::{
    read_array, read_i32, read_i64, read_u16, read_u32, read_u64, write_bytes, write_u16,
    write_u32, write_u64, write_zeros,
};
use crate::abi::codec;
use crate::abi::header::{decode_header, EventHeader};
use crate::abi::header;
use crate::abi::{COMM_LEN, PATH_LEN};

verus! {


/// Raw `sched_process_exec` record.
#[derive(Clone, Copy, Debug, PartialEq, Eq)]
pub struct ProcessExecEvent {
    pub header: EventHeader,
    pub comm: [u8; COMM_LEN],
    pub filename: [u8; PATH_LEN],
    pub filename_len: u16,
    pub _pad: [u8; 6],
}

impl ProcessExecEvent {
    /// Size in bytes of the encoded record.
    pub const SIZE: u16 = 320;
}

/// `b` starts with the encoding of `e`.
pub open spec fn process_exec_event_layout(b: Seq<u8>, e: ProcessExecEvent) -> bool {
    &&& b.len() >= 320
    &&& header::header_layout(b, e.header)
    &&& e.comm@ == b.subrange(40, 56)
    &&& e.filename@ == b.subrange(56, 312)
    &&& e.filename_len == codec::u16_at(b, 312)
    &&& e._pad@ == b.subrange(314, 320)
}

/// The encoding of `e`.
pub open spec fn process_exec_event_bytes(e: ProcessExecEvent) -> Seq<u8> {
    header::header_bytes(e.header)
        + e.comm@
        + e.filename@
        + codec::u16_le(e.filename_len)
        + e._pad@
}

/// The encoding of a record lays out that record, and has the record's size.
#[verifier::rlimit(100)]
pub proof fn lemma_process_exec_event_bytes(e: ProcessExecEvent)
    ensures
        process_exec_event_bytes(e).len() == 320,
        process_exec_event_layout(process_exec_event_bytes(e), e),
{
    let b = process_exec_event_bytes(e);
    header::lemma_header_bytes(e.header, b.skip(40));
    assert(b =~= header::header_bytes(e.header) + b.skip(40));
    assert(b.subrange(40, 56) =~= e.comm@);
    assert(b.subrange(56, 312) =~= e.filename@);
    codec::lemma_u16_field(b.take(312), e.filename_len, b.skip(314));
    assert(b =~= b.take(312) + codec::u16_le(e.filename_len) + b.skip(314));
    assert(b.subrange(314, 320) =~= e._pad@);
}

/// Two records laid out over the same bytes are equal.
pub proof fn lemma_process_exec_event_layout_unique(b: Seq<u8>, e1: ProcessExecEvent, e2: ProcessExecEvent)
    requires
        process_exec_event_layout(b, e1),
        process_exec_event_layout(b, e2),
    ensures
        e1 == e2,
{
    header::lemma_header_layout_unique(b, e1.header, e2.header);
    assert(e1.comm =~= e2.comm);
    assert(e1.filename =~= e2.filename);
    assert(e1._pad =~= e2._pad);
}

/// What the probe writes for a record is decoded by userspace as that same record:
/// any record laid out over the encoding of `e` is `e`.
pub proof fn lemma_process_exec_event_roundtrip(e: ProcessExecEvent, d: ProcessExecEvent)
    requires
        process_exec_event_layout(process_exec_event_bytes(e), d),
    ensures
        d == e,
{
    lemma_process_exec_event_bytes(e);
    lemma_process_exec_event_layout_unique(process_exec_event_bytes(e), e, d);
}

/// Decodes a `ProcessExecEvent` from the start of `b`; `None` when `b` is shorter than the record.
pub fn decode_process_exec_event(b: &[u8]) -> (r: Option<ProcessExecEvent>)
    ensures
        r is None <==> b@.len() < 320,
        r matches Some(e) ==> process_exec_event_layout(b@, e),
{
    if b.len() < 320 {
        return None;
    }
    let header = match decode_header(b) {
        Some(h) => h,
        None => return None,
    };
    Some(ProcessExecEvent {
        header: header,
        comm: read_array(b, 40),
        filename: read_array(b, 56),
        filename_len: read_u16(b, 312),
        _pad: read_array(b, 314),
    })
}

impl ProcessExecEvent {
    /// The record's bytes, as the probe writes them into the ring buffer.
    pub fn to_bytes(&self) -> (r: Vec<u8>)
        ensures
            r@ == process_exec_event_bytes(*self),
            r@.len() == 320,
            process_exec_event_layout(r@, *self),
    {
        let mut v: Vec<u8> = Vec::new();
        self.header.write_to(&mut v);
        write_bytes(&mut v, &self.comm);
        write_bytes(&mut v, &self.filename);
        write_u16(&mut v, self.filename_len);
        write_bytes(&mut v, &self._pad);
        proof {
            assert(v@ =~= process_exec_event_bytes(*self));
            lemma_process_exec_event_bytes(*self);
        }
        v
    }
}

impl Default for ProcessExecEvent {
    fn default() -> (e: Self)
        ensures
            e.header == header::zero_header(),
            forall|i: int| 0 <= i < e.comm@.len() ==> e.comm@[i] == 0,
            forall|i: int| 0 <= i < e.filename@.len() ==> e.filename@[i] == 0,
            e.filename_len == 0,
            forall|i: int| 0 <= i < e._pad@.len() ==> e._pad@[i] == 0,
    {
        ProcessExecEvent {
            header: EventHeader::default(),
            comm: [0u8; 16],
            filename: [0u8; 256],
            filename_len: 0,
            _pad: [0u8; 6],
        }
    }
}

/// Raw `sched_process_fork` record.
#[derive(Clone, Copy, Debug, PartialEq, Eq)]
pub struct ProcessForkEvent {
    pub header: EventHeader,
    pub parent_pid: u32,
    pub parent_comm: [u8; COMM_LEN],
    pub child_pid: u32,
    pub child_tid: u32,
    pub child_comm: [u8; COMM_LEN],
}

impl ProcessForkEvent {
    /// Size in bytes of the encoded record.
    pub const SIZE: u16 = 88;
}

/// `b` starts with the encoding of `e`.
pub open spec fn process_fork_event_layout(b: Seq<u8>, e: ProcessForkEvent) -> bool {
    &&& b.len() >= 88
    &&& header::header_layout(b, e.header)
    &&& e.parent_pid == codec::u32_at(b, 40)
    &&& e.parent_comm@ == b.subrange(44, 60)
    &&& e.child_pid == codec::u32_at(b, 60)
    &&& e.child_tid == codec::u32_at(b, 64)
    &&& e.child_comm@ == b.subrange(68, 84)
}

/// The encoding of `e`.
pub open spec fn process_fork_event_bytes(e: ProcessForkEvent) -> Seq<u8> {
    header::header_bytes(e.header)
        + codec::u32_le(e.parent_pid)
        + e.parent_comm@
        + codec::u32_le(e.child_pid)
        + codec::u32_le(e.child_tid)
        + e.child_comm@
        + codec::zeros(4)
}

/// The encoding of a record lays out that record, and has the record's size.
#[verifier::rlimit(100)]
pub proof fn lemma_process_fork_event_bytes(e: ProcessForkEvent)
    ensures
        process_fork_event_bytes(e).len() == 88,
        process_fork_event_layout(process_fork_event_bytes(e), e),
{
    let b = process_fork_event_bytes(e);
    header::lemma_header_bytes(e.header, b.skip(40));
    assert(b =~= header::header_bytes(e.header) + b.skip(40));
    codec::lemma_u32_field(b.take(40), e.parent_pid, b.skip(44));
    assert(b =~= b.take(40) + codec::u32_le(e.parent_pid) + b.skip(44));
    assert(b.subrange(44, 60) =~= e.parent_comm@);
    codec::lemma_u32_field(b.take(60), e.child_pid, b.skip(64));
    assert(b =~= b.take(60) + codec::u32_le(e.child_pid) + b.skip(64));
    codec::lemma_u32_field(b.take(64), e.child_tid, b.skip(68));
    assert(b =~= b.take(64) + codec::u32_le(e.child_tid) + b.skip(68));
    assert(b.subrange(68, 84) =~= e.child_comm@);
}

/// Two records laid out over the same bytes are equal.
pub proof fn lemma_process_fork_event_layout_unique(b: Seq<u8>, e1: ProcessForkEvent, e2: ProcessForkEvent)
    requires
        process_fork_event_layout(b, e1),
        process_fork_event_layout(b, e2),
    ensures
        e1 == e2,
{
    header::lemma_header_layout_unique(b, e1.header, e2.header);
    assert(e1.parent_comm =~= e2.parent_comm);
    assert(e1.child_comm =~= e2.child_comm);
}

/// What the probe writes for a record is decoded by userspace as that same record:
/// any record laid out over the encoding of `e` is `e`.
pub proof fn lemma_process_fork_event_roundtrip(e: ProcessForkEvent, d: ProcessForkEvent)
    requires
        process_fork_event_layout(process_fork_event_bytes(e), d),
    ensures
        d == e,
{
    lemma_process_fork_event_bytes(e);
    lemma_process_fork_event_layout_unique(process_fork_event_bytes(e), e, d);
}

/// Decodes a `ProcessForkEvent` from the start of `b`; `None` when `b` is shorter than the record.
pub fn decode_process_fork_event(b: &[u8]) -> (r: Option<ProcessForkEvent>)
    ensures
        r is None <==> b@.len() < 88,
        r matches Some(e) ==> process_fork_event_layout(b@, e),
{
    if b.len() < 88 {
        return None;
    }
    let header = match decode_header(b) {
        Some(h) => h,
        None => return None,
    };
    Some(ProcessForkEvent {
        header: header,
        parent_pid: read_u32(b, 40),
        parent_comm: read_array(b, 44),
        child_pid: read_u32(b, 60),
        child_tid: read_u32(b, 64),
        child_comm: read_array(b, 68),
    })
}

impl ProcessForkEvent {
    /// The record's bytes, as the probe writes them into the ring buffer.
    pub fn to_bytes(&self) -> (r: Vec<u8>)
        ensures
            r@ == process_fork_event_bytes(*self),
            r@.len() == 88,
            process_fork_event_layout(r@, *self),
    {
        let mut v: Vec<u8> = Vec::new();
        self.header.write_to(&mut v);
        write_u32(&mut v, self.parent_pid);
        write_bytes(&mut v, &self.parent_comm);
        write_u32(&mut v, self.child_pid);
        write_u32(&mut v, self.child_tid);
        write_bytes(&mut v, &self.child_comm);
        write_zeros(&mut v, 4);
        proof {
            assert(v@ =~= process_fork_event_bytes(*self));
            lemma_process_fork_event_bytes(*self);
        }
        v
    }
}

impl Default for ProcessForkEvent {
    fn default() -> (e: Self)
        ensures
            e.header == header::zero_header(),
            e.parent_pid == 0,
            forall|i: int| 0 <= i < e.parent_comm@.len() ==> e.parent_comm@[i] == 0,
            e.child_pid == 0,
            e.child_tid == 0,
            forall|i: int| 0 <= i < e.child_comm@.len() ==> e.child_comm@[i] == 0,
    {
        ProcessForkEvent {
            header: EventHeader::default(),
            parent_pid: 0,
            parent_comm: [0u8; 16],
            child_pid: 0,
            child_tid: 0,
            child_comm: [0u8; 16],
        }
    }
}

/// Raw `sched_process_exit` record.
#[derive(Clone, Copy, Debug, PartialEq, Eq)]
pub struct ProcessExitEvent {
    pub header: EventHeader,
    pub comm: [u8; COMM_LEN],
    pub group_dead: u8,
    pub _pad: [u8; 7],
}

impl ProcessExitEvent {
    /// Size in bytes of the encoded record.
    pub const SIZE: u16 = 64;
}

/// `b` starts with the encoding of `e`.
pub open spec fn process_exit_event_layout(b: Seq<u8>, e: ProcessExitEvent) -> bool {
    &&& b.len() >= 64
    &&& header::header_layout(b, e.header)
    &&& e.comm@ == b.subrange(40, 56)
    &&& e.group_dead == b[56]
    &&& e._pad@ == b.subrange(57, 64)
}

/// The encoding of `e`.
pub open spec fn process_exit_event_bytes(e: ProcessExitEvent) -> Seq<u8> {
    header::header_bytes(e.header)
        + e.comm@
        + seq![e.group_dead]
        + e._pad@
}

/// The encoding of a record lays out that record, and has the record's size.
#[verifier::rlimit(100)]
pub proof fn lemma_process_exit_event_bytes(e: ProcessExitEvent)
    ensures
        process_exit_event_bytes(e).len() == 64,
        process_exit_event_layout(process_exit_event_bytes(e), e),
{
    let b = process_exit_event_bytes(e);
    header::lemma_header_bytes(e.header, b.skip(40));
    assert(b =~= header::header_bytes(e.header) + b.skip(40));
    assert(b.subrange(40, 56) =~= e.comm@);
    assert(b[56] == e.group_dead);
    assert(b.subrange(57, 64) =~= e._pad@);
}

/// Two records laid out over the same bytes are equal.
pub proof fn lemma_process_exit_event_layout_unique(b: Seq<u8>, e1: ProcessExitEvent, e2: ProcessExitEvent)
    requires
        process_exit_event_layout(b, e1),
        process_exit_event_layout(b, e2),
    ensures
        e1 == e2,
{
    header::lemma_header_layout_unique(b, e1.header, e2.header);
    assert(e1.comm =~= e2.comm);
    assert(e1._pad =~= e2._pad);
}

/// What the probe writes for a record is decoded by userspace as that same record:
/// any record laid out over the encoding of `e` is `e`.
pub proof fn lemma_process_exit_event_roundtrip(e: ProcessExitEvent, d: ProcessExitEvent)
    requires
        process_exit_event_layout(process_exit_event_bytes(e), d),
    ensures
        d == e,
{
    lemma_process_exit_event_bytes(e);
    lemma_process_exit_event_layout_unique(process_exit_event_bytes(e), e, d);
}

/// Decodes a `ProcessExitEvent` from the start of `b`; `None` when `b` is shorter than the record.
pub fn decode_process_exit_event(b: &[u8]) -> (r: Option<ProcessExitEvent>)
    ensures
        r is None <==> b@.len() < 64,
        r matches Some(e) ==> process_exit_event_layout(b@, e),
{
    if b.len() < 64 {
        return None;
    }
    let header = match decode_header(b) {
        Some(h) => h,
        None => return None,
    };
    Some(ProcessExitEvent {
        header: header,
        comm: read_array(b, 40),
        group_dead: b[56],
        _pad: read_array(b, 57),
    })
}

impl ProcessExitEvent {
    /// The record's bytes, as the probe writes them into the ring buffer.
    pub fn to_bytes(&self) -> (r: Vec<u8>)
        ensures
            r@ == process_exit_event_bytes(*self),
            r@.len() == 64,
            process_exit_event_layout(r@, *self),
    {
        let mut v: Vec<u8> = Vec::new();
        self.header.write_to(&mut v);
        write_bytes(&mut v, &self.comm);
        v.push(self.group_dead);
        write_bytes(&mut v, &self._pad);
        proof {
            assert(v@ =~= process_exit_event_bytes(*self));
            lemma_process_exit_event_bytes(*self);
        }
        v
    }
}

impl Default for ProcessExitEvent {
    fn default() -> (e: Self)
        ensures
            e.header == header::zero_header(),
            forall|i: int| 0 <= i < e.comm@.len() ==> e.comm@[i] == 0,
            e.group_dead == 0,
            forall|i: int| 0 <= i < e._pad@.len() ==> e._pad@[i] == 0,
    {
        ProcessExitEvent {
            header: EventHeader::default(),
            comm: [0u8; 16],
            group_dead: 0,
            _pad: [0u8; 7],
        }
    }
}

/// Raw `sys_enter_execve` / `sys_enter_execveat` record.
#[derive(Clone, Copy, Debug, PartialEq, Eq)]
pub struct ExecSyscallEvent {
    pub header: EventHeader,
    pub source: u8,
    pub _pad: [u8; 5],
    pub filename_len: u16,
    pub filename: [u8; PATH_LEN],
}

impl ExecSyscallEvent {
    /// Size in bytes of the encoded record.
    pub const SIZE: u16 = 304;
}

/// `b` starts with the encoding of `e`.
pub open spec fn exec_syscall_event_layout(b: Seq<u8>, e: ExecSyscallEvent) -> bool {
    &&& b.len() >= 304
    &&& header::header_layout(b, e.header)
    &&& e.source == b[40]
    &&& e._pad@ == b.subrange(41, 46)
    &&& e.filename_len == codec::u16_at(b, 46)
    &&& e.filename@ == b.subrange(48, 304)
}

/// The encoding of `e`.
pub open spec fn exec_syscall_event_bytes(e: ExecSyscallEvent) -> Seq<u8> {
    header::header_bytes(e.header)
        + seq![e.source]
        + e._pad@
        + codec::u16_le(e.filename_len)
        + e.filename@
}

/// The encoding of a record lays out that record, and has the record's size.
#[verifier::rlimit(100)]
pub proof fn lemma_exec_syscall_event_bytes(e: ExecSyscallEvent)
    ensures
        exec_syscall_event_bytes(e).len() == 304,
        exec_syscall_event_layout(exec_syscall_event_bytes(e), e),
{
    let b = exec_syscall_event_bytes(e);
    header::lemma_header_bytes(e.header, b.skip(40));
    assert(b =~= header::header_bytes(e.header) + b.skip(40));
    assert(b[40] == e.source);
    assert(b.subrange(41, 46) =~= e._pad@);
    codec::lemma_u16_field(b.take(46), e.filename_len, b.skip(48));
    assert(b =~= b.take(46) + codec::u16_le(e.filename_len) + b.skip(48));
    assert(b.subrange(48, 304) =~= e.filename@);
}

/// Two records laid out over the same bytes are equal.
pub proof fn lemma_exec_syscall_event_layout_unique(b: Seq<u8>, e1: ExecSyscallEvent, e2: ExecSyscallEvent)
    requires
        exec_syscall_event_layout(b, e1),
        exec_syscall_event_layout(b, e2),
    ensures
        e1 == e2,
{
    header::lemma_header_layout_unique(b, e1.header, e2.header);
    assert(e1._pad =~= e2._pad);
    assert(e1.filename =~= e2.filename);
}

/// What the probe writes for a record is decoded by userspace as that same record:
/// any record laid out over the encoding of `e` is `e`.
pub proof fn lemma_exec_syscall_event_roundtrip(e: ExecSyscallEvent, d: ExecSyscallEvent)
    requires
        exec_syscall_event_layout(exec_syscall_event_bytes(e), d),
    ensures
        d == e,
{
    lemma_exec_syscall_event_bytes(e);
    lemma_exec_syscall_event_layout_unique(exec_syscall_event_bytes(e), e, d);
}

/// Decodes a `ExecSyscallEvent` from the start of `b`; `None` when `b` is shorter than the record.
pub fn decode_exec_syscall_event(b: &[u8]) -> (r: Option<ExecSyscallEvent>)
    ensures
        r is None <==> b@.len() < 304,
        r matches Some(e) ==> exec_syscall_event_layout(b@, e),
{
    if b.len() < 304 {
        return None;
    }
    let header = match decode_header(b) {
        Some(h) => h,
        None => return None,
    };
    Some(ExecSyscallEvent {
        header: header,
        source: b[40],
        _pad: read_array(b, 41),
        filename_len: read_u16(b, 46),
        filename: read_array(b, 48),
    })
}

impl ExecSyscallEvent {
    /// The record's bytes, as the probe writes them into the ring buffer.
    pub fn to_bytes(&self) -> (r: Vec<u8>)
        ensures
            r@ == exec_syscall_event_bytes(*self),
            r@.len() == 304,
            exec_syscall_event_layout(r@, *self),
    {
        let mut v: Vec<u8> = Vec::new();
        self.header.write_to(&mut v);
        v.push(self.source);
        write_bytes(&mut v, &self._pad);
        write_u16(&mut v, self.filename_len);
        write_bytes(&mut v, &self.filename);
        proof {
            assert(v@ =~= exec_syscall_event_bytes(*self));
            lemma_exec_syscall_event_bytes(*self);
        }
        v
    }
}

impl Default for ExecSyscallEvent {
    fn default() -> (e: Self)
        ensures
            e.header == header::zero_header(),
            e.source == 0,
            forall|i: int| 0 <= i < e._pad@.len() ==> e._pad@[i] == 0,
            e.filename_len == 0,
            forall|i: int| 0 <= i < e.filename@.len() ==> e.filename@[i] == 0,
    {
        ExecSyscallEvent {
            header: EventHeader::default(),
            source: 0,
            _pad: [0u8; 5],
            filename_len: 0,
            filename: [0u8; 256],
        }
    }
}

} // verus!
