use rand_guard::abi::{EventKind, ExecSource, FileFilterConfig};
use rand_guard::probes::file::{
    openat2_record, openat_record, pwrite64_record, rename_record, renameat2_record, renameat_record,
    unlink_record, unlinkat_record, write_record, writev_record,
};
use rand_guard::probes::network::{bind_record, connect_record, listen_record};
use rand_guard::probes::process::{
    exec_syscall_record, sched_exec_record, sched_exit_record, sched_fork_record,
};
use rand_guard::probes::{make_header, read_name, task_ids, TaskIds, UserString};

fn ids() -> TaskIds {
    task_ids((42u64 << 32) | 43, (1001u64 << 32) | 1000)
}

fn user_string(s: &[u8]) -> UserString {
    let mut buf = [0u8; 256];
    buf[..s.len()].copy_from_slice(s);
    UserString { result: Ok(s.len() as u16), buf }
}

fn put_u64(ctx: &mut [u8], off: usize, v: u64) {
    ctx[off..off + 8].copy_from_slice(&v.to_le_bytes());
}

fn put_i32(ctx: &mut [u8], off: usize, v: i32) {
    ctx[off..off + 4].copy_from_slice(&v.to_le_bytes());
}

fn put_u32(ctx: &mut [u8], off: usize, v: u32) {
    ctx[off..off + 4].copy_from_slice(&v.to_le_bytes());
}

#[test]
fn task_ids_split_the_helper_words() {
    let t = ids();
    assert_eq!(t.pid, 42);
    assert_eq!(t.tid, 43);
    assert_eq!(t.uid, 1000);
    assert_eq!(t.gid, 1001);
}

#[test]
fn probe_header_marks_a_cut_name() {
    let h = make_header(EventKind::FileOpen, 312, ids(), 77, true);
    assert_eq!(h.kind, EventKind::FileOpen.as_u16());
    assert_eq!(h.size, 312);
    assert_eq!(h.flags, 1);
    assert_eq!(h.timestamp_ns, 77);
    assert_eq!(h.pid, 42);
    assert_eq!(h.ppid, 0);
    let h = make_header(EventKind::FileOpen, 312, ids(), 77, false);
    assert_eq!(h.flags, 0);
}

#[test]
fn a_null_name_pointer_reads_as_empty() {
    let failed = UserString { result: Err(-14), buf: [7u8; 256] };
    let (buf, len, cut) = read_name(0, &failed).expect("null reads as empty");
    assert_eq!(len, 0);
    assert!(!cut);
    assert!(buf.iter().all(|b| *b == 0));
    assert!(read_name(0x1000, &failed).is_none());
    let full = UserString { result: Ok(256), buf: [b'a'; 256] };
    let (_, len, cut) = read_name(0x1000, &full).expect("read");
    assert_eq!(len, 256);
    assert!(cut);
}

#[test]
fn execve_probe_records_the_path() {
    let mut ctx = [0u8; 32];
    put_u64(&mut ctx, 16, 0x7fff_0000);
    let e = exec_syscall_record(&ctx, ExecSource::Execve, ids(), 5, &user_string(b"/bin/sh"))
        .expect("record");
    assert_eq!(e.header.kind, EventKind::ExecSyscall.as_u16());
    assert_eq!(e.source, ExecSource::Execve.as_u8());
    assert_eq!(e.filename_len, 7);
    assert_eq!(&e.filename[..7], b"/bin/sh");
    assert!(exec_syscall_record(&ctx[..20], ExecSource::Execve, ids(), 5, &user_string(b"/bin/sh"))
        .is_none());
    // execveat reads its path pointer at 24, which is null here.
    let e = exec_syscall_record(&ctx, ExecSource::Execveat, ids(), 5, &user_string(b"/bin/sh"))
        .expect("record");
    assert_eq!(e.filename_len, 0);
}

#[test]
fn openat_probe_applies_the_filter() {
    let mut ctx = [0u8; 40];
    put_u64(&mut ctx, 24, 0x1000);
    put_i32(&mut ctx, 32, 0o101);
    let name = user_string(b"/etc/passwd");
    let e = openat_record(&ctx, ids(), 9, &name, None).expect("record");
    assert_eq!(e.filename_len, 11);
    assert_eq!(e.flags, 0o101);
    assert_eq!(e.header.size, 312);
    let mut f = FileFilterConfig::empty();
    f.prefix_count = 1;
    f.prefixes[0][..4].copy_from_slice(b"/var");
    f.prefix_lens[0] = 4;
    assert!(openat_record(&ctx, ids(), 9, &name, Some(&f)).is_none());
    f.prefixes[0][..4].copy_from_slice(b"/etc");
    assert!(openat_record(&ctx, ids(), 9, &name, Some(&f)).is_some());
    assert!(openat_record(&ctx[..34], ids(), 9, &name, None).is_none());
}

#[test]
fn rename_probe_carries_both_names() {
    let mut ctx = [0u8; 32];
    put_u64(&mut ctx, 16, 0x1000);
    put_u64(&mut ctx, 24, 0x2000);
    let e = rename_record(&ctx, ids(), 1, &user_string(b"/tmp/a"), &user_string(b"/tmp/bb"))
        .expect("record");
    assert_eq!(e.old_filename_len, 6);
    assert_eq!(e.new_filename_len, 7);
    assert_eq!(&e.new_filename[..7], b"/tmp/bb");
    let failed = UserString { result: Err(-14), buf: [0u8; 256] };
    assert!(rename_record(&ctx, ids(), 1, &user_string(b"/tmp/a"), &failed).is_none());
}

#[test]
fn unlink_and_write_probes_read_their_arguments() {
    let mut ctx = [0u8; 40];
    put_u64(&mut ctx, 16, 0x1000);
    let e = unlink_record(&ctx, ids(), 1, &user_string(b"/tmp/x")).expect("record");
    assert_eq!(e.filename_len, 6);
    put_u32(&mut ctx, 16, 3);
    put_u64(&mut ctx, 32, 4096);
    let w = write_record(&ctx, ids(), 1).expect("record");
    assert_eq!(w.fd, 3);
    assert_eq!(w.count, 4096);
    assert!(write_record(&ctx[..39], ids(), 1).is_none());
}

#[test]
fn sched_exec_probe_copies_the_data_loc_filename() {
    let mut ctx = vec![0u8; 64];
    // offset 40, length 10 (including the NUL)
    put_u32(&mut ctx, 8, (10 << 16) | 40);
    ctx[40..49].copy_from_slice(b"/bin/bash");
    let comm = *b"bash\0\0\0\0\0\0\0\0\0\0\0\0";
    let e = sched_exec_record(&ctx, ids(), 3, Some(comm)).expect("record");
    assert_eq!(e.filename_len, 9);
    assert_eq!(&e.filename[..9], b"/bin/bash");
    assert_eq!(e.filename[9], 0);
    assert_eq!(e.comm, comm);
    assert_eq!(e.header.flags, 0);
    assert!(sched_exec_record(&ctx, ids(), 3, None).is_none());
    put_u32(&mut ctx, 8, 0);
    assert!(sched_exec_record(&ctx, ids(), 3, Some(comm)).is_none());
}

#[test]
fn sched_fork_and_exit_probes_read_the_record() {
    let mut ctx = vec![0u8; 64];
    put_u32(&mut ctx, 8, (16 << 16) | 32);
    put_u32(&mut ctx, 12, 100);
    put_u32(&mut ctx, 16, (16 << 16) | 48);
    put_u32(&mut ctx, 20, 101);
    ctx[32..36].copy_from_slice(b"bash");
    ctx[48..52].copy_from_slice(b"sshd");
    let e = sched_fork_record(&ctx, ids(), 2).expect("record");
    assert_eq!(e.parent_pid, 100);
    assert_eq!(e.child_pid, 101);
    assert_eq!(e.child_tid, 101);
    assert_eq!(&e.parent_comm[..4], b"bash");
    assert_eq!(&e.child_comm[..4], b"sshd");

    let mut exit_ctx = [0u8; 40];
    exit_ctx[8..12].copy_from_slice(b"bash");
    exit_ctx[32] = 1;
    let x = sched_exit_record(&exit_ctx, ids(), 2).expect("record");
    assert_eq!(x.group_dead, 1);
    assert_eq!(&x.comm[..4], b"bash");
    assert!(sched_exit_record(&exit_ctx[..32], ids(), 2).is_none());
}

fn sockaddr_ctx(fd: i32, ptr: u64, len: i32) -> [u8; 40] {
    let mut ctx = [0u8; 40];
    put_i32(&mut ctx, 16, fd);
    put_u64(&mut ctx, 24, ptr);
    put_i32(&mut ctx, 32, len);
    ctx
}

#[test]
fn connect_probe_reads_an_ipv4_address_in_host_order() {
    let ctx = sockaddr_ctx(5, 0x1000, 16);
    let mut sa = [0u8; 16];
    sa[0..2].copy_from_slice(&2u16.to_le_bytes());
    sa[2..4].copy_from_slice(&443u16.to_be_bytes());
    sa[4..8].copy_from_slice(&[10, 0, 0, 1]);
    let comm = [b'c'; 16];
    let e = connect_record(&ctx, &sa, ids(), 8, Some(comm)).expect("record");
    assert_eq!(e.header.kind, EventKind::NetworkConnect.as_u16());
    assert_eq!(e.family, 2);
    assert_eq!(e.socket_fd, 5);
    assert_eq!(e.port, 443);
    assert_eq!(e.ipv4_addr, 0x0a00_0001);
    assert_eq!(e.addr_len, 16);
    assert_eq!(e.direction, 1);
    assert_eq!(e.comm, comm);
    assert!(connect_record(&ctx, &sa, ids(), 8, None).is_none());
    assert!(connect_record(&sockaddr_ctx(5, 0, 16), &sa, ids(), 8, Some(comm)).is_none());
    assert!(connect_record(&sockaddr_ctx(5, 0x1000, 1), &sa, ids(), 8, Some(comm)).is_none());
    assert!(connect_record(&sockaddr_ctx(5, 0x1000, 8), &sa, ids(), 8, Some(comm)).is_none());
}

#[test]
fn bind_probe_reads_an_ipv6_address() {
    let ctx = sockaddr_ctx(6, 0x1000, 28);
    let mut sa = [0u8; 28];
    sa[0..2].copy_from_slice(&10u16.to_le_bytes());
    sa[2..4].copy_from_slice(&8080u16.to_be_bytes());
    sa[8..24].copy_from_slice(&[0, 0, 0, 0, 0, 0, 0, 0, 0, 0, 0, 0, 0, 0, 0, 1]);
    let e = bind_record(&ctx, &sa, ids(), 8, Some([0u8; 16])).expect("record");
    assert_eq!(e.family, 10);
    assert_eq!(e.port, 8080);
    assert_eq!(e.ipv4_addr, 0);
    assert_eq!(e.ipv6_addr[15], 1);
    assert_eq!(e.direction, 2);
    assert!(bind_record(&ctx, &sa[..20], ids(), 8, Some([0u8; 16])).is_none());
    // An address of another family keeps the port and addresses zero.
    let mut unix = [0u8; 16];
    unix[0..2].copy_from_slice(&1u16.to_le_bytes());
    unix[2..4].copy_from_slice(&[1, 2]);
    let u = bind_record(&sockaddr_ctx(6, 0x1000, 16), &unix, ids(), 8, Some([0u8; 16]))
        .expect("record");
    assert_eq!(u.family, 1);
    assert_eq!(u.port, 0);
}

#[test]
fn listen_probe_records_the_backlog() {
    let mut ctx = [0u8; 32];
    put_i32(&mut ctx, 16, 4);
    put_i32(&mut ctx, 24, 128);
    let e = listen_record(&ctx, ids(), 1, Some([0u8; 16])).expect("record");
    assert_eq!(e.socket_fd, 4);
    assert_eq!(e.backlog, 128);
    assert_eq!(e.family, 0);
    assert_eq!(e.direction, 2);
    assert_eq!(e.header.kind, EventKind::NetworkListen.as_u16());
    assert!(listen_record(&ctx[..27], ids(), 1, Some([0u8; 16])).is_none());
}

#[test]
fn openat2_probe_takes_flags_from_open_how() {
    let mut ctx = [0u8; 40];
    put_u64(&mut ctx, 24, 0x1000);
    put_u64(&mut ctx, 32, 0x2000);
    let name = user_string(b"/etc/hosts");
    let e = openat2_record(&ctx, ids(), 4, Some(0o2), &name, None).expect("record");
    assert_eq!(e.flags, 0o2);
    assert_eq!(e.filename_len, 10);
    assert_eq!(e.header.size, 320);
    // An unreadable open_how gives zero flags; a null one too.
    assert_eq!(openat2_record(&ctx, ids(), 4, None, &name, None).expect("record").flags, 0);
    put_u64(&mut ctx, 32, 0);
    assert_eq!(openat2_record(&ctx, ids(), 4, Some(7), &name, None).expect("record").flags, 0);
    assert!(openat2_record(&ctx[..36], ids(), 4, Some(7), &name, None).is_none());
}

#[test]
fn renameat_probes_read_names_at_24_and_40() {
    let mut ctx = [0u8; 56];
    put_u64(&mut ctx, 24, 0x1000);
    put_u64(&mut ctx, 40, 0x2000);
    put_u32(&mut ctx, 48, 1);
    let long = UserString { result: Ok(256), buf: [b'x'; 256] };
    let e = renameat_record(&ctx, ids(), 2, &user_string(b"/a"), &long).expect("record");
    assert_eq!(e.old_filename_len, 2);
    assert_eq!(e.new_filename_len, 256);
    assert_eq!(e.header.flags, 1);
    let e2 = renameat2_record(&ctx, ids(), 2, &user_string(b"/a"), &user_string(b"/b"))
        .expect("record");
    assert_eq!(e2.flags, 1);
    assert_eq!(e2.header.flags, 0);
    assert_eq!(e2.header.size, 568);
    assert!(renameat2_record(&ctx[..50], ids(), 2, &user_string(b"/a"), &user_string(b"/b"))
        .is_none());
}

#[test]
fn unlinkat_probe_needs_its_flags() {
    let mut ctx = [0u8; 36];
    put_u64(&mut ctx, 24, 0x1000);
    put_i32(&mut ctx, 32, 0x200);
    let e = unlinkat_record(&ctx, ids(), 2, &user_string(b"/tmp/d")).expect("record");
    assert_eq!(e.flags, 0x200);
    assert_eq!(e.filename_len, 6);
    assert!(unlinkat_record(&ctx[..34], ids(), 2, &user_string(b"/tmp/d")).is_none());
}

#[test]
fn writev_and_pwrite64_probes_read_their_arguments() {
    let mut ctx = [0u8; 48];
    put_u32(&mut ctx, 16, 9);
    put_i32(&mut ctx, 32, 3);
    let v = writev_record(&ctx, ids(), 1).expect("record");
    assert_eq!(v.fd, 9);
    assert_eq!(v.iovcnt, 3);
    put_u64(&mut ctx, 32, 512);
    put_u64(&mut ctx, 40, (-1i64) as u64);
    let p = pwrite64_record(&ctx, ids(), 1).expect("record");
    assert_eq!(p.count, 512);
    assert_eq!(p.pos, -1);
    assert!(pwrite64_record(&ctx[..47], ids(), 1).is_none());
}
