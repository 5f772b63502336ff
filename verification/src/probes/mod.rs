//! What the kernel probes write into the ring buffer, as a function of what
//! their helpers hand them: the task ids, the clock, the tracepoint record
//! and the user memory they read.  A probe submits the record these
//! functions build, and discards it where they give `None`.
use vstd::prelude::*;
use crate::abi::codec;
use crate::abi::codec::{read_i32, read_i64, read_u32, read_u64};
use crate::abi::header::fill_header;
use crate::abi::kinds::EventKind;
use crate::abi::kinds;
use crate::abi::EventHeader;

pub mod file;
pub mod network;
pub mod process;

verus! {

/// The ids of the current task, as the probes split the helper words.
#[derive(Clone, Copy, Debug, PartialEq, Eq)]
pub struct TaskIds {
    pub pid: u32,
    pub tid: u32,
    pub uid: u32,
    pub gid: u32,
}

/// The process id sits in the high half of the pid/tgid word and the thread
/// id in the low half; the gid sits in the high half of the uid/gid word.
pub open spec fn ids_of(pid_tgid: u64, uid_gid: u64) -> TaskIds {
    TaskIds {
        pid: (pid_tgid / 0x1_0000_0000) as u32,
        tid: (pid_tgid % 0x1_0000_0000) as u32,
        uid: (uid_gid % 0x1_0000_0000) as u32,
        gid: (uid_gid / 0x1_0000_0000) as u32,
    }
}

/// Splits the two helper words into the task ids.
pub fn task_ids(pid_tgid: u64, uid_gid: u64) -> (r: TaskIds)
    ensures
        r == ids_of(pid_tgid, uid_gid),
{
    TaskIds {
        pid: (pid_tgid / 0x1_0000_0000) as u32,
        tid: (pid_tgid % 0x1_0000_0000) as u32,
        uid: (uid_gid % 0x1_0000_0000) as u32,
        gid: (uid_gid / 0x1_0000_0000) as u32,
    }
}

/// The header a probe writes: its kind and size, the current version, the
/// task ids and clock, no parent, and the truncation flag when a name did
/// not fit.
pub open spec fn probe_header(kind: EventKind, size: u16, ids: TaskIds, timestamp_ns: u64, truncated: bool) -> EventHeader {
    EventHeader {
        kind: kinds::kind_code(kind),
        version: 1,
        size,
        flags: if truncated { 1 } else { 0 },
        timestamp_ns,
        pid: ids.pid,
        tid: ids.tid,
        ppid: 0,
        uid: ids.uid,
        gid: ids.gid,
        _pad: 0,
    }
}

/// Builds the header a probe writes.
pub fn make_header(kind: EventKind, size: u16, ids: TaskIds, timestamp_ns: u64, truncated: bool) -> (r: EventHeader)
    ensures
        r == probe_header(kind, size, ids, timestamp_ns, truncated),
{
    let mut h = EventHeader::default();
    fill_header(&mut h, kind, size, ids.pid, ids.tid, ids.uid, ids.gid, timestamp_ns);
    if truncated {
        h.flags = crate::abi::EVENT_FLAG_FILENAME_TRUNCATED;
    }
    h
}

/// What the user-string helper did: the length of the string it reported,
/// or its error, and the path buffer as it left it.
#[derive(Clone, Copy, Debug)]
pub struct UserString {
    pub result: Result<u16, i64>,
    pub buf: [u8; 256],
}

/// The helper never reports more than the buffer holds.
pub open spec fn fits(s: UserString) -> bool {
    s.result matches Ok(n) ==> n <= 256
}

/// A name field read from user memory at `ptr`: the buffer, the length,
/// and whether the name was cut; an empty name for a null pointer; `None`
/// when the read failed.
pub open spec fn name_read(ptr: u64, s: UserString) -> Option<(Seq<u8>, u16, bool)> {
    if ptr == 0 {
        Some((codec::zeros(256), 0u16, false))
    } else {
        match s.result {
            Ok(n) => Some((s.buf@, n, n >= 256)),
            Err(_) => None,
        }
    }
}

/// Reads a name field as a probe does.
pub fn read_name(ptr: u64, s: &UserString) -> (r: Option<([u8; 256], u16, bool)>)
    ensures
        match (r, name_read(ptr, *s)) {
            (Some((b, n, t)), Some((b2, n2, t2))) => b@ == b2 && n == n2 && t == t2,
            (None, None) => true,
            _ => false,
        },
{
    if ptr == 0 {
        let b = [0u8; 256];
        assert(b@ =~= codec::zeros(256));
        Some((b, 0, false))
    } else {
        match s.result {
            Ok(n) => Some((s.buf, n, n >= 256)),
            Err(_) => None,
        }
    }
}

/// The `u64` at `off` of the tracepoint record, if it is there.
pub open spec fn ctx_u64(ctx: Seq<u8>, off: int) -> Option<u64> {
    if 0 <= off && off + 8 <= ctx.len() {
        Some(codec::u64_at(ctx, off))
    } else {
        None
    }
}

/// The `i64` at `off` of the tracepoint record, if it is there.
pub open spec fn ctx_i64(ctx: Seq<u8>, off: int) -> Option<i64> {
    if 0 <= off && off + 8 <= ctx.len() {
        Some(codec::i64_at(ctx, off))
    } else {
        None
    }
}

/// The `u32` at `off` of the tracepoint record, if it is there.
pub open spec fn ctx_u32(ctx: Seq<u8>, off: int) -> Option<u32> {
    if 0 <= off && off + 4 <= ctx.len() {
        Some(codec::u32_at(ctx, off))
    } else {
        None
    }
}

/// The `i32` at `off` of the tracepoint record, if it is there.
pub open spec fn ctx_i32(ctx: Seq<u8>, off: int) -> Option<i32> {
    if 0 <= off && off + 4 <= ctx.len() {
        Some(codec::i32_at(ctx, off))
    } else {
        None
    }
}

/// The byte at `off` of the tracepoint record, if it is there.
pub open spec fn ctx_u8(ctx: Seq<u8>, off: int) -> Option<u8> {
    if 0 <= off && off < ctx.len() {
        Some(ctx[off])
    } else {
        None
    }
}

/// Reads a `u64` of the tracepoint record.
pub fn read_ctx_u64(ctx: &[u8], off: usize) -> (r: Option<u64>)
    ensures
        r == ctx_u64(ctx@, off as int),
{
    if off <= ctx.len() && ctx.len() - off >= 8 {
        Some(read_u64(ctx, off))
    } else {
        None
    }
}

/// Reads an `i64` of the tracepoint record.
pub fn read_ctx_i64(ctx: &[u8], off: usize) -> (r: Option<i64>)
    ensures
        r == ctx_i64(ctx@, off as int),
{
    if off <= ctx.len() && ctx.len() - off >= 8 {
        Some(read_i64(ctx, off))
    } else {
        None
    }
}

/// Reads a `u32` of the tracepoint record.
pub fn read_ctx_u32(ctx: &[u8], off: usize) -> (r: Option<u32>)
    ensures
        r == ctx_u32(ctx@, off as int),
{
    if off <= ctx.len() && ctx.len() - off >= 4 {
        Some(read_u32(ctx, off))
    } else {
        None
    }
}

/// Reads an `i32` of the tracepoint record.
pub fn read_ctx_i32(ctx: &[u8], off: usize) -> (r: Option<i32>)
    ensures
        r == ctx_i32(ctx@, off as int),
{
    if off <= ctx.len() && ctx.len() - off >= 4 {
        Some(read_i32(ctx, off))
    } else {
        None
    }
}

/// Reads a byte of the tracepoint record.
pub fn read_ctx_u8(ctx: &[u8], off: usize) -> (r: Option<u8>)
    ensures
        r == ctx_u8(ctx@, off as int),
{
    if off < ctx.len() {
        Some(ctx[off])
    } else {
        None
    }
}

} // verus!
