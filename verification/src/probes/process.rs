//! The process probes: exec syscalls, and the scheduler's exec, fork and
//! exit tracepoints.
use vstd::prelude::*;
use crate::abi::codec;
use crate::abi::kinds::{ExecSource, EventKind};
use crate::abi::kinds;
use crate::abi::{ExecSyscallEvent, ProcessExecEvent, ProcessExitEvent, ProcessForkEvent};
use crate::probes::{make_header, read_ctx_u32, read_ctx_u64, read_ctx_u8, read_name, TaskIds, UserString};
use crate::probes;

verus! {

/// The record an exec syscall probe submits, for the path pointer at
/// `off` (16 for `execve`, 24 for `execveat`).
pub open spec fn exec_syscall_outcome(ctx: Seq<u8>, off: int, name: UserString) -> Option<(Seq<u8>, u16, bool)> {
    match probes::ctx_u64(ctx, off) {
        Some(ptr) => probes::name_read(ptr, name),
        None => None,
    }
}

/// The record the `execve` (`Execve`) or `execveat` (`Execveat`) probe
/// submits, or `None`.
pub fn exec_syscall_record(
    ctx: &[u8],
    source: ExecSource,
    ids: TaskIds,
    timestamp_ns: u64,
    name: &UserString,
) -> (r: Option<ExecSyscallEvent>)
    ensures
        ({
            let off = if source == ExecSource::Execve { 16int } else { 24int };
            &&& r is Some <==> exec_syscall_outcome(ctx@, off, *name) is Some
            &&& r matches Some(e) ==> {
                let o = exec_syscall_outcome(ctx@, off, *name)->0;
                &&& e.header == probes::probe_header(EventKind::ExecSyscall, 304, ids, timestamp_ns, o.2)
                &&& e.source == kinds::source_code(source)
                &&& e.filename@ == o.0
                &&& e.filename_len == o.1
                &&& e._pad@ == codec::zeros(5)
            }
        }),
{
    let off: usize = match source {
        ExecSource::Execve => 16,
        ExecSource::Execveat => 24,
    };
    let ptr = match read_ctx_u64(ctx, off) {
        Some(p) => p,
        None => return None,
    };
    let (buf, n, t) = match read_name(ptr, name) {
        Some(x) => x,
        None => return None,
    };
    let pad = [0u8; 5];
    assert(pad@ =~= codec::zeros(5));
    Some(
        ExecSyscallEvent {
            header: make_header(EventKind::ExecSyscall, 304, ids, timestamp_ns, t),
            source: source.as_u8(),
            _pad: pad,
            filename_len: n,
            filename: buf,
        },
    )
}

/// Copying a string of the tracepoint record that starts at `off`, at most
/// `lim` bytes, from byte `i` on: how many bytes precede its NUL (or `lim`
/// when none comes first), and whether a NUL was seen; `None` when a byte
/// to read lies outside the record.
pub open spec fn copy_from(ctx: Seq<u8>, off: int, lim: int, i: int) -> Option<(int, bool)>
    decreases lim - i,
{
    if i >= lim {
        Some((i, false))
    } else if off + i >= ctx.len() {
        None
    } else if ctx[off + i] == 0 {
        Some((i, true))
    } else {
        copy_from(ctx, off, lim, i + 1)
    }
}

/// A buffer of `size` bytes holding the `copied` bytes of the record that
/// start at `off`, then zeros.
pub open spec fn copied_buffer(ctx: Seq<u8>, off: int, copied: int, size: nat) -> Seq<u8> {
    Seq::new(size, |j: int| if j < copied { ctx[off + j] } else { 0u8 })
}

/// The string offset (low half) and length (high half) of a `__data_loc`
/// word.
pub open spec fn data_loc_parts(data_loc: u32) -> (int, int) {
    ((data_loc % 0x1_0000) as int, (data_loc / 0x1_0000) as int)
}

proof fn lemma_copy_from_bounds(ctx: Seq<u8>, off: int, lim: int, i: int)
    requires
        i <= lim,
    ensures
        copy_from(ctx, off, lim, i) matches Some((c, z)) ==> i <= c <= lim && (z ==> c < lim && off
            + c < ctx.len() && ctx[off + c] == 0) && (!z ==> c == lim) && forall|j: int|
            #![trigger ctx[off + j]]
            i <= j < c ==> off + j < ctx.len() && ctx[off + j] != 0,
    decreases lim - i,
{
    if i < lim && off + i < ctx.len() && ctx[off + i] != 0 {
        lemma_copy_from_bounds(ctx, off, lim, i + 1);
    }
}

/// Copies at most `lim` bytes of the record string at `off` into a buffer
/// of `N` bytes, stopping at its NUL.
fn copy_record_string<const N: usize>(ctx: &[u8], off: usize, lim: usize) -> (r: Option<([u8; N], usize, bool)>)
    requires
        lim <= N,
        off + N <= usize::MAX,
    ensures
        match copy_from(ctx@, off as int, lim as int, 0) {
            Some((c, z)) => r matches Some((buf, copied, saw)) && copied == c && saw == z
                && buf@ == copied_buffer(ctx@, off as int, c, N as nat),
            None => r is None,
        },
{
    let mut buf = [0u8; N];
    let mut i: usize = 0;
    proof {
        lemma_copy_from_bounds(ctx@, off as int, lim as int, 0);
    }
    while i < lim
        invariant
            lim <= N,
            off + N <= usize::MAX,
            i <= lim,
            buf@.len() == N,
            copy_from(ctx@, off as int, lim as int, 0) == copy_from(ctx@, off as int, lim as int, i as int),
            forall|j: int| 0 <= j < i ==> off + j < ctx@.len() && buf@[j] == ctx@[off + j],
            forall|j: int| i <= j < N ==> buf@[j] == 0,
        decreases lim - i,
    {
        if off + i >= ctx.len() {
            return None;
        }
        let byte = ctx[off + i];
        if byte == 0 {
            assert(buf@ =~= copied_buffer(ctx@, off as int, i as int, N as nat));
            return Some((buf, i, true));
        }
        buf[i] = byte;
        i = i + 1;
    }
    assert(buf@ =~= copied_buffer(ctx@, off as int, lim as int, N as nat));
    Some((buf, lim, false))
}

/// The exec filename read through the `__data_loc` word at offset 8: at
/// most the path size, at least one byte long and at a non-zero offset.
/// Its length is the bytes before the NUL; it is cut when no NUL came and
/// the record's string is at least the path size long.
pub open spec fn sched_exec_filename(ctx: Seq<u8>) -> Option<(Seq<u8>, u16, bool)> {
    match probes::ctx_u32(ctx, 8) {
        None => None,
        Some(data_loc) => {
            let (off, len) = data_loc_parts(data_loc);
            if off == 0 || len == 0 {
                None
            } else {
                let lim = if len < 256 { len } else { 256 };
                match copy_from(ctx, off, lim, 0) {
                    None => None,
                    Some((c, z)) => Some((copied_buffer(ctx, off, c, 256), c as u16, !z && len >= 256)),
                }
            }
        },
    }
}

/// The record the scheduler's exec probe submits: the task name the
/// helper gave (`None` when it failed) and the filename of the record.
pub fn sched_exec_record(ctx: &[u8], ids: TaskIds, timestamp_ns: u64, comm: Option<[u8; 16]>) -> (r: Option<
    ProcessExecEvent,
>)
    ensures
        r is Some <==> (comm is Some && sched_exec_filename(ctx@) is Some),
        r matches Some(e) ==> {
            let o = sched_exec_filename(ctx@)->0;
            &&& e.header == probes::probe_header(EventKind::ProcessExec, 320, ids, timestamp_ns, o.2)
            &&& e.comm == comm->0
            &&& e.filename@ == o.0
            &&& e.filename_len == o.1
            &&& e._pad@ == codec::zeros(6)
        },
{
    let comm = match comm {
        Some(c) => c,
        None => return None,
    };
    let data_loc = match read_ctx_u32(ctx, 8) {
        Some(d) => d,
        None => return None,
    };
    let off = (data_loc % 0x1_0000) as usize;
    let len = data_loc / 0x1_0000;
    if off == 0 || len == 0 {
        return None;
    }
    let lim: usize = if len < 256 { len as usize } else { 256 };
    let (buf, copied, saw_null) = match copy_record_string::<256>(ctx, off, lim) {
        Some(x) => x,
        None => return None,
    };
    let truncated = !saw_null && len >= 256;
    let pad = [0u8; 6];
    assert(pad@ =~= codec::zeros(6));
    Some(
        ProcessExecEvent {
            header: make_header(EventKind::ProcessExec, 320, ids, timestamp_ns, truncated),
            comm,
            filename: buf,
            filename_len: copied as u16,
            _pad: pad,
        },
    )
}

/// A task name read through the `__data_loc` word at `loc`: at most 16
/// bytes, stopping at the NUL, from a non-zero offset.
pub open spec fn data_loc_comm(ctx: Seq<u8>, loc: int) -> Option<Seq<u8>> {
    match probes::ctx_u32(ctx, loc) {
        None => None,
        Some(data_loc) => {
            let (off, len) = data_loc_parts(data_loc);
            if off == 0 {
                None
            } else {
                let lim = if len < 16 { len } else { 16 };
                match copy_from(ctx, off, lim, 0) {
                    None => None,
                    Some((c, _)) => Some(copied_buffer(ctx, off, c, 16)),
                }
            }
        },
    }
}

/// Reads a task name through the `__data_loc` word at `loc`.
pub fn read_data_loc_comm(ctx: &[u8], loc: usize) -> (r: Option<[u8; 16]>)
    ensures
        match data_loc_comm(ctx@, loc as int) {
            Some(b) => r matches Some(a) && a@ == b,
            None => r is None,
        },
{
    let data_loc = match read_ctx_u32(ctx, loc) {
        Some(d) => d,
        None => return None,
    };
    let off = (data_loc % 0x1_0000) as usize;
    let len = data_loc / 0x1_0000;
    if off == 0 {
        return None;
    }
    let lim: usize = if len < 16 { len as usize } else { 16 };
    match copy_record_string::<16>(ctx, off, lim) {
        Some((buf, _, _)) => Some(buf),
        None => None,
    }
}

/// The record the scheduler's fork probe submits: parent pid at offset
/// 12, child pid at 20 (also its tid), and both names through the
/// `__data_loc` words at 8 and 16.
pub fn sched_fork_record(ctx: &[u8], ids: TaskIds, timestamp_ns: u64) -> (r: Option<ProcessForkEvent>)
    ensures
        r is Some <==> (probes::ctx_u32(ctx@, 12) is Some && probes::ctx_u32(ctx@, 20) is Some
            && data_loc_comm(ctx@, 8) is Some && data_loc_comm(ctx@, 16) is Some),
        r matches Some(e) ==> {
            &&& e.header == probes::probe_header(EventKind::ProcessFork, 88, ids, timestamp_ns, false)
            &&& e.parent_pid == probes::ctx_u32(ctx@, 12)->0
            &&& e.parent_comm@ == data_loc_comm(ctx@, 8)->0
            &&& e.child_pid == probes::ctx_u32(ctx@, 20)->0
            &&& e.child_tid == probes::ctx_u32(ctx@, 20)->0
            &&& e.child_comm@ == data_loc_comm(ctx@, 16)->0
        },
{
    let parent_pid = match read_ctx_u32(ctx, 12) {
        Some(p) => p,
        None => return None,
    };
    let child_pid = match read_ctx_u32(ctx, 20) {
        Some(p) => p,
        None => return None,
    };
    let parent_comm = match read_data_loc_comm(ctx, 8) {
        Some(c) => c,
        None => return None,
    };
    let child_comm = match read_data_loc_comm(ctx, 16) {
        Some(c) => c,
        None => return None,
    };
    Some(
        ProcessForkEvent {
            header: make_header(EventKind::ProcessFork, 88, ids, timestamp_ns, false),
            parent_pid,
            parent_comm,
            child_pid,
            child_tid: child_pid,
            child_comm,
        },
    )
}

/// The record the scheduler's exit probe submits: the group-dead byte at
/// offset 32 and the 16 name bytes at 8.
pub fn sched_exit_record(ctx: &[u8], ids: TaskIds, timestamp_ns: u64) -> (r: Option<ProcessExitEvent>)
    ensures
        r is Some <==> (32 < ctx@.len()),
        r matches Some(e) ==> {
            &&& e.header == probes::probe_header(EventKind::ProcessExit, 64, ids, timestamp_ns, false)
            &&& e.group_dead == ctx@[32]
            &&& e.comm@ == ctx@.subrange(8, 24)
            &&& e._pad@ == codec::zeros(7)
        },
{
    let group_dead = match read_ctx_u8(ctx, 32) {
        Some(g) => g,
        None => return None,
    };
    let comm = crate::abi::codec::read_array::<16>(ctx, 8);
    let pad = [0u8; 7];
    assert(pad@ =~= codec::zeros(7));
    Some(
        ProcessExitEvent {
            header: make_header(EventKind::ProcessExit, 64, ids, timestamp_ns, false),
            comm,
            group_dead,
            _pad: pad,
        },
    )
}

} // verus!
