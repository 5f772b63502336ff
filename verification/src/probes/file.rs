//! The file probes: open, write, rename and unlink syscall families.
use vstd::prelude::*;
use crate::abi::codec;
use crate::abi::path_filter;
use crate::abi::path_filter::{file_passes_filter, FileFilterConfig};
use crate::abi::kinds::EventKind;
use crate::abi::{
    EventHeader, FileOpenAt2Event, FileOpenEvent, FilePWrite64Event, FileRenameAt2Event,
    FileRenameAtEvent, FileRenameEvent, FileUnlinkAtEvent, FileUnlinkEvent, FileWriteEvent,
    FileWriteVEvent,
};
use crate::probes::{
    make_header, read_ctx_i32, read_ctx_i64, read_ctx_u32, read_ctx_u64, read_name, TaskIds,
    UserString,
};
use crate::probes;

verus! {

/// A null pointer when the argument could not be read.
pub open spec fn ptr_or_null(arg: Option<u64>) -> u64 {
    match arg {
        Some(p) => p,
        None => 0,
    }
}

/// The in-kernel filter, when one is loaded, lets the name through.
pub open spec fn filter_lets_through(filter: Option<&FileFilterConfig>, name: Seq<u8>, len: u16) -> bool {
    match filter {
        Some(f) => path_filter::spec_passes_filter(*f, name, len as int),
        None => true,
    }
}

fn filter_allows(filter: Option<&FileFilterConfig>, name: &[u8; 256], len: u16) -> (r: bool)
    requires
        filter matches Some(f) ==> f.well_formed(),
        len <= 256,
    ensures
        r == filter_lets_through(filter, name@, len),
{
    match filter {
        Some(f) => file_passes_filter(f, name, len),
        None => true,
    }
}

/// The `openat` record: the path argument at offset 24, the flags at 32.
/// It is submitted when both arguments were read, the path was read, and
/// the filter lets it through.
pub open spec fn openat_outcome(
    ctx: Seq<u8>,
    name: UserString,
    filter: Option<&FileFilterConfig>,
) -> Option<(Seq<u8>, u16, bool, u32)> {
    let path = probes::ctx_u64(ctx, 24);
    let flags = probes::ctx_i32(ctx, 32);
    match probes::name_read(ptr_or_null(path), name) {
        Some((b, n, t)) => if path is Some && flags is Some && filter_lets_through(filter, b, n) {
            Some((b, n, t, flags->0 as u32))
        } else {
            None
        },
        None => None,
    }
}

/// The record `e` carries name `b` of length `n`, cut when `t`.
pub open spec fn file_open_is(e: FileOpenEvent, ids: TaskIds, ts: u64, o: (Seq<u8>, u16, bool, u32)) -> bool {
    &&& e.header == probes::probe_header(EventKind::FileOpen, 312, ids, ts, o.2)
    &&& e.filename@ == o.0
    &&& e.filename_len == o.1
    &&& e.flags == o.3
    &&& e._pad@ == codec::zeros(2)
}

/// The record the `openat` probe submits, or `None` when it discards it.
pub fn openat_record(
    ctx: &[u8],
    ids: TaskIds,
    timestamp_ns: u64,
    name: &UserString,
    filter: Option<&FileFilterConfig>,
) -> (r: Option<FileOpenEvent>)
    requires
        probes::fits(*name),
        filter matches Some(f) ==> f.well_formed(),
    ensures
        r is Some <==> openat_outcome(ctx@, *name, filter) is Some,
        r matches Some(e) ==> file_open_is(e, ids, timestamp_ns, openat_outcome(ctx@, *name, filter)->0),
{
    let path = read_ctx_u64(ctx, 24);
    let flags = read_ctx_i32(ctx, 32);
    let ptr = match path {
        Some(p) => p,
        None => 0,
    };
    let (buf, n, truncated) = match read_name(ptr, name) {
        Some(x) => x,
        None => return None,
    };
    let flags = match (path, flags) {
        (Some(_), Some(f)) => f,
        _ => return None,
    };
    if !filter_allows(filter, &buf, n) {
        return None;
    }
    let pad = [0u8; 2];
    assert(pad@ =~= codec::zeros(2));
    Some(
        FileOpenEvent {
            header: make_header(EventKind::FileOpen, 312, ids, timestamp_ns, truncated),
            filename: buf,
            filename_len: n,
            flags: flags as u32,
            _pad: pad,
        },
    )
}

/// The `openat2` record: the path argument at offset 24 and the `open_how`
/// pointer at 32 must be read; the flags are those `open_how` holds
/// (`how_flags`, zero when unreadable or the pointer is null).
pub open spec fn openat2_outcome(
    ctx: Seq<u8>,
    how_flags: Option<u64>,
    name: UserString,
    filter: Option<&FileFilterConfig>,
) -> Option<(Seq<u8>, u16, bool, u64)> {
    match (probes::ctx_u64(ctx, 24), probes::ctx_u64(ctx, 32)) {
        (Some(path), Some(how)) => match probes::name_read(path, name) {
            Some((b, n, t)) => if filter_lets_through(filter, b, n) {
                Some((b, n, t, if how != 0 { ptr_or_null(how_flags) } else { 0 }))
            } else {
                None
            },
            None => None,
        },
        _ => None,
    }
}

/// The record the `openat2` probe submits, or `None`.
pub fn openat2_record(
    ctx: &[u8],
    ids: TaskIds,
    timestamp_ns: u64,
    how_flags: Option<u64>,
    name: &UserString,
    filter: Option<&FileFilterConfig>,
) -> (r: Option<FileOpenAt2Event>)
    requires
        probes::fits(*name),
        filter matches Some(f) ==> f.well_formed(),
    ensures
        r is Some <==> openat2_outcome(ctx@, how_flags, *name, filter) is Some,
        r matches Some(e) ==> {
            let o = openat2_outcome(ctx@, how_flags, *name, filter)->0;
            &&& e.header == probes::probe_header(EventKind::FileOpenAt2, 320, ids, timestamp_ns, o.2)
            &&& e.filename@ == o.0
            &&& e.filename_len == o.1
            &&& e.flags == o.3
            &&& e._pad@ == codec::zeros(6)
        },
{
    let path = match read_ctx_u64(ctx, 24) {
        Some(p) => p,
        None => return None,
    };
    let how = match read_ctx_u64(ctx, 32) {
        Some(h) => h,
        None => return None,
    };
    let flags: u64 = if how != 0 {
        match how_flags {
            Some(f) => f,
            None => 0,
        }
    } else {
        0
    };
    let (buf, n, truncated) = match read_name(path, name) {
        Some(x) => x,
        None => return None,
    };
    if !filter_allows(filter, &buf, n) {
        return None;
    }
    let pad = [0u8; 6];
    assert(pad@ =~= codec::zeros(6));
    Some(
        FileOpenAt2Event {
            header: make_header(EventKind::FileOpenAt2, 320, ids, timestamp_ns, truncated),
            filename: buf,
            filename_len: n,
            flags,
            _pad: pad,
        },
    )
}

/// The two names of a rename: the pointers at `old_off` and `new_off`
/// must be read, and each non-null name read from user memory.
pub open spec fn rename_outcome(
    ctx: Seq<u8>,
    old_off: int,
    new_off: int,
    old_name: UserString,
    new_name: UserString,
) -> Option<(Seq<u8>, u16, Seq<u8>, u16, bool)> {
    match (probes::ctx_u64(ctx, old_off), probes::ctx_u64(ctx, new_off)) {
        (Some(old_ptr), Some(new_ptr)) => match (
            probes::name_read(old_ptr, old_name),
            probes::name_read(new_ptr, new_name),
        ) {
            (Some((ob, on, ot)), Some((nb, nn, nt))) => Some((ob, on, nb, nn, ot || nt)),
            _ => None,
        },
        _ => None,
    }
}

fn read_rename(
    ctx: &[u8],
    old_off: usize,
    new_off: usize,
    old_name: &UserString,
    new_name: &UserString,
) -> (r: Option<([u8; 256], u16, [u8; 256], u16, bool)>)
    ensures
        r is Some <==> rename_outcome(ctx@, old_off as int, new_off as int, *old_name, *new_name) is Some,
        r matches Some(x) ==> {
            let o = rename_outcome(ctx@, old_off as int, new_off as int, *old_name, *new_name)->0;
            x.0@ == o.0 && x.1 == o.1 && x.2@ == o.2 && x.3 == o.3 && x.4 == o.4
        },
{
    let old_ptr = match read_ctx_u64(ctx, old_off) {
        Some(p) => p,
        None => return None,
    };
    let new_ptr = match read_ctx_u64(ctx, new_off) {
        Some(p) => p,
        None => return None,
    };
    let (ob, on, ot) = match read_name(old_ptr, old_name) {
        Some(x) => x,
        None => return None,
    };
    let (nb, nn, nt) = match read_name(new_ptr, new_name) {
        Some(x) => x,
        None => return None,
    };
    Some((ob, on, nb, nn, ot || nt))
}

/// The record the `rename` probe submits (names at offsets 16 and 24).
pub fn rename_record(
    ctx: &[u8],
    ids: TaskIds,
    timestamp_ns: u64,
    old_name: &UserString,
    new_name: &UserString,
) -> (r: Option<FileRenameEvent>)
    ensures
        r is Some <==> rename_outcome(ctx@, 16, 24, *old_name, *new_name) is Some,
        r matches Some(e) ==> {
            let o = rename_outcome(ctx@, 16, 24, *old_name, *new_name)->0;
            &&& e.header == probes::probe_header(EventKind::FileRename, 560, ids, timestamp_ns, o.4)
            &&& e.old_filename@ == o.0
            &&& e.old_filename_len == o.1
            &&& e.new_filename@ == o.2
            &&& e.new_filename_len == o.3
            &&& e._pad@ == codec::zeros(4)
        },
{
    let (ob, on, nb, nn, t) = match read_rename(ctx, 16, 24, old_name, new_name) {
        Some(x) => x,
        None => return None,
    };
    let pad = [0u8; 4];
    assert(pad@ =~= codec::zeros(4));
    Some(
        FileRenameEvent {
            header: make_header(EventKind::FileRename, 560, ids, timestamp_ns, t),
            old_filename: ob,
            old_filename_len: on,
            new_filename: nb,
            new_filename_len: nn,
            _pad: pad,
        },
    )
}

/// The record the `renameat` probe submits (names at offsets 24 and 40).
pub fn renameat_record(
    ctx: &[u8],
    ids: TaskIds,
    timestamp_ns: u64,
    old_name: &UserString,
    new_name: &UserString,
) -> (r: Option<FileRenameAtEvent>)
    ensures
        r is Some <==> rename_outcome(ctx@, 24, 40, *old_name, *new_name) is Some,
        r matches Some(e) ==> {
            let o = rename_outcome(ctx@, 24, 40, *old_name, *new_name)->0;
            &&& e.header == probes::probe_header(EventKind::FileRenameAt, 560, ids, timestamp_ns, o.4)
            &&& e.old_filename@ == o.0
            &&& e.old_filename_len == o.1
            &&& e.new_filename@ == o.2
            &&& e.new_filename_len == o.3
            &&& e._pad@ == codec::zeros(4)
        },
{
    let (ob, on, nb, nn, t) = match read_rename(ctx, 24, 40, old_name, new_name) {
        Some(x) => x,
        None => return None,
    };
    let pad = [0u8; 4];
    assert(pad@ =~= codec::zeros(4));
    Some(
        FileRenameAtEvent {
            header: make_header(EventKind::FileRenameAt, 560, ids, timestamp_ns, t),
            old_filename: ob,
            old_filename_len: on,
            new_filename: nb,
            new_filename_len: nn,
            _pad: pad,
        },
    )
}

/// The record the `renameat2` probe submits (names at offsets 24 and 40,
/// flags at 48, which must be read too).
pub fn renameat2_record(
    ctx: &[u8],
    ids: TaskIds,
    timestamp_ns: u64,
    old_name: &UserString,
    new_name: &UserString,
) -> (r: Option<FileRenameAt2Event>)
    ensures
        r is Some <==> (probes::ctx_u32(ctx@, 48) is Some && rename_outcome(ctx@, 24, 40, *old_name, *new_name) is Some),
        r matches Some(e) ==> {
            let o = rename_outcome(ctx@, 24, 40, *old_name, *new_name)->0;
            &&& e.header == probes::probe_header(EventKind::FileRenameAt2, 568, ids, timestamp_ns, o.4)
            &&& e.old_filename@ == o.0
            &&& e.old_filename_len == o.1
            &&& e.new_filename@ == o.2
            &&& e.new_filename_len == o.3
            &&& e.flags == probes::ctx_u32(ctx@, 48)->0
            &&& e._pad@ == codec::zeros(4)
        },
{
    let flags = match read_ctx_u32(ctx, 48) {
        Some(f) => f,
        None => {
            assert(probes::ctx_u32(ctx@, 48) is None);
            return None;
        },
    };
    let (ob, on, nb, nn, t) = match read_rename(ctx, 24, 40, old_name, new_name) {
        Some(x) => x,
        None => return None,
    };
    let pad = [0u8; 4];
    assert(pad@ =~= codec::zeros(4));
    Some(
        FileRenameAt2Event {
            header: make_header(EventKind::FileRenameAt2, 568, ids, timestamp_ns, t),
            old_filename: ob,
            old_filename_len: on,
            new_filename: nb,
            new_filename_len: nn,
            flags,
            _pad: pad,
        },
    )
}

/// The name of an unlink: the pointer at `off` must be read, and a
/// non-null name read from user memory.
pub open spec fn unlink_outcome(ctx: Seq<u8>, off: int, name: UserString) -> Option<(Seq<u8>, u16, bool)> {
    match probes::ctx_u64(ctx, off) {
        Some(ptr) => probes::name_read(ptr, name),
        None => None,
    }
}

/// The record the `unlink` probe submits (name at offset 16).
pub fn unlink_record(ctx: &[u8], ids: TaskIds, timestamp_ns: u64, name: &UserString) -> (r: Option<
    FileUnlinkEvent,
>)
    ensures
        r is Some <==> unlink_outcome(ctx@, 16, *name) is Some,
        r matches Some(e) ==> {
            let o = unlink_outcome(ctx@, 16, *name)->0;
            &&& e.header == probes::probe_header(EventKind::FileUnlink, 304, ids, timestamp_ns, o.2)
            &&& e.filename@ == o.0
            &&& e.filename_len == o.1
            &&& e._pad@ == codec::zeros(6)
        },
{
    let ptr = match read_ctx_u64(ctx, 16) {
        Some(p) => p,
        None => return None,
    };
    let (buf, n, t) = match read_name(ptr, name) {
        Some(x) => x,
        None => return None,
    };
    let pad = [0u8; 6];
    assert(pad@ =~= codec::zeros(6));
    Some(
        FileUnlinkEvent {
            header: make_header(EventKind::FileUnlink, 304, ids, timestamp_ns, t),
            filename: buf,
            filename_len: n,
            _pad: pad,
        },
    )
}

/// The record the `unlinkat` probe submits (name at offset 24, flags at 32,
/// which must be read too).
pub fn unlinkat_record(ctx: &[u8], ids: TaskIds, timestamp_ns: u64, name: &UserString) -> (r: Option<
    FileUnlinkAtEvent,
>)
    ensures
        r is Some <==> (probes::ctx_i32(ctx@, 32) is Some && unlink_outcome(ctx@, 24, *name) is Some),
        r matches Some(e) ==> {
            let o = unlink_outcome(ctx@, 24, *name)->0;
            &&& e.header == probes::probe_header(EventKind::FileUnlinkAt, 312, ids, timestamp_ns, o.2)
            &&& e.filename@ == o.0
            &&& e.filename_len == o.1
            &&& e.flags == probes::ctx_i32(ctx@, 32)->0 as u32
            &&& e._pad@ == codec::zeros(2)
        },
{
    let ptr = match read_ctx_u64(ctx, 24) {
        Some(p) => p,
        None => return None,
    };
    let flags = match read_ctx_i32(ctx, 32) {
        Some(f) => f,
        None => return None,
    };
    let (buf, n, t) = match read_name(ptr, name) {
        Some(x) => x,
        None => return None,
    };
    let pad = [0u8; 2];
    assert(pad@ =~= codec::zeros(2));
    Some(
        FileUnlinkAtEvent {
            header: make_header(EventKind::FileUnlinkAt, 312, ids, timestamp_ns, t),
            filename: buf,
            filename_len: n,
            flags: flags as u32,
            _pad: pad,
        },
    )
}

/// The record the `write` probe submits: the descriptor at offset 16 and
/// the count at 32.
pub fn write_record(ctx: &[u8], ids: TaskIds, timestamp_ns: u64) -> (r: Option<FileWriteEvent>)
    ensures
        r is Some <==> (probes::ctx_u32(ctx@, 16) is Some && probes::ctx_u64(ctx@, 32) is Some),
        r matches Some(e) ==> {
            &&& e.header == probes::probe_header(EventKind::FileWrite, 56, ids, timestamp_ns, false)
            &&& e.fd == probes::ctx_u32(ctx@, 16)->0 as u64
            &&& e.count == probes::ctx_u64(ctx@, 32)->0
        },
{
    let fd = match read_ctx_u32(ctx, 16) {
        Some(f) => f,
        None => return None,
    };
    let count = match read_ctx_u64(ctx, 32) {
        Some(c) => c,
        None => return None,
    };
    Some(
        FileWriteEvent {
            header: make_header(EventKind::FileWrite, 56, ids, timestamp_ns, false),
            fd: fd as u64,
            count,
        },
    )
}

/// The record the `writev` probe submits: the descriptor at offset 16 and
/// the vector count at 32.
pub fn writev_record(ctx: &[u8], ids: TaskIds, timestamp_ns: u64) -> (r: Option<FileWriteVEvent>)
    ensures
        r is Some <==> (probes::ctx_u32(ctx@, 16) is Some && probes::ctx_i32(ctx@, 32) is Some),
        r matches Some(e) ==> {
            &&& e.header == probes::probe_header(EventKind::FileWriteV, 56, ids, timestamp_ns, false)
            &&& e.fd == probes::ctx_u32(ctx@, 16)->0 as u64
            &&& e.iovcnt == probes::ctx_i32(ctx@, 32)->0 as i64
        },
{
    let fd = match read_ctx_u32(ctx, 16) {
        Some(f) => f,
        None => return None,
    };
    let iovcnt = match read_ctx_i32(ctx, 32) {
        Some(c) => c,
        None => return None,
    };
    Some(
        FileWriteVEvent {
            header: make_header(EventKind::FileWriteV, 56, ids, timestamp_ns, false),
            fd: fd as u64,
            iovcnt: iovcnt as i64,
        },
    )
}

/// The record the `pwrite64` probe submits: the descriptor at offset 16,
/// the count at 32 and the position at 40.
pub fn pwrite64_record(ctx: &[u8], ids: TaskIds, timestamp_ns: u64) -> (r: Option<FilePWrite64Event>)
    ensures
        r is Some <==> (probes::ctx_u32(ctx@, 16) is Some && probes::ctx_u64(ctx@, 32) is Some
            && probes::ctx_i64(ctx@, 40) is Some),
        r matches Some(e) ==> {
            &&& e.header == probes::probe_header(EventKind::FilePWrite64, 64, ids, timestamp_ns, false)
            &&& e.fd == probes::ctx_u32(ctx@, 16)->0 as u64
            &&& e.count == probes::ctx_u64(ctx@, 32)->0
            &&& e.pos == probes::ctx_i64(ctx@, 40)->0
        },
{
    let fd = match read_ctx_u32(ctx, 16) {
        Some(f) => f,
        None => return None,
    };
    let count = match read_ctx_u64(ctx, 32) {
        Some(c) => c,
        None => return None,
    };
    let pos = match read_ctx_i64(ctx, 40) {
        Some(p) => p,
        None => return None,
    };
    Some(
        FilePWrite64Event {
            header: make_header(EventKind::FilePWrite64, 64, ids, timestamp_ns, false),
            fd: fd as u64,
            count,
            pos,
        },
    )
}

} // verus!
