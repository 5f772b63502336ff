use rand_guard::abi::file::decode_file_rename_at2_event;
use rand_guard::abi::header::{decode_header, fill_header};
use rand_guard::abi::network::decode_network_connect_event;
use rand_guard::abi::process::decode_process_exec_event;
use rand_guard::abi::{
    file_passes_filter, EventHeader, EventKind, ExecSource, FileFilterConfig, FileRenameAt2Event,
    NetworkConnectEvent, NetworkDirection, NetworkFamily, ProcessExecEvent, EVENT_SCHEMA_VERSION,
};

#[test]
fn exec_record_round_trips_through_its_bytes() {
    let mut e = ProcessExecEvent::default();
    fill_header(&mut e.header, EventKind::ProcessExec, ProcessExecEvent::SIZE, 7, 8, 1000, 1001, 99);
    e.comm[..4].copy_from_slice(b"bash");
    e.filename[..9].copy_from_slice(b"/bin/bash");
    e.filename_len = 9;
    let bytes = e.to_bytes();
    assert_eq!(bytes.len(), 320);
    let d = decode_process_exec_event(&bytes).expect("long enough");
    assert_eq!(d.header.pid, 7);
    assert_eq!(d.header.tid, 8);
    assert_eq!(d.header.timestamp_ns, 99);
    assert_eq!(d.header.version, EVENT_SCHEMA_VERSION);
    assert_eq!(d.comm, e.comm);
    assert_eq!(d.filename, e.filename);
    assert_eq!(d.filename_len, 9);
    assert!(decode_process_exec_event(&bytes[..319]).is_none());
}

#[test]
fn header_is_little_endian_at_fixed_offsets() {
    let mut h = EventHeader::default();
    fill_header(&mut h, EventKind::FileOpen, 312, 0x0102_0304, 5, 6, 7, 0x1122_3344_5566_7788);
    let mut bytes = Vec::new();
    h.write_to(&mut bytes);
    assert_eq!(bytes.len(), 40);
    assert_eq!(&bytes[0..2], &[7, 0]);
    assert_eq!(&bytes[2..4], &[1, 0]);
    assert_eq!(&bytes[4..6], &[0x38, 0x01]);
    assert_eq!(&bytes[8..16], &[0x88, 0x77, 0x66, 0x55, 0x44, 0x33, 0x22, 0x11]);
    assert_eq!(&bytes[16..20], &[4, 3, 2, 1]);
    assert_eq!(decode_header(&bytes), Some(h));
    assert_eq!(decode_header(&bytes[..39]), None);
    assert_eq!(h.ppid, 0);
    assert_eq!(h.flags, 0);
}

#[test]
fn network_and_rename_records_round_trip() {
    let mut n = NetworkConnectEvent::default();
    n.family = NetworkFamily::Ipv6.as_u16();
    n.port = 443;
    n.socket_fd = -1;
    n.ipv6_addr[15] = 1;
    n.direction = 1;
    let d = decode_network_connect_event(&n.to_bytes()).expect("long enough");
    assert_eq!(d.family, 10);
    assert_eq!(d.port, 443);
    assert_eq!(d.socket_fd, -1);
    assert_eq!(d.ipv6_addr, n.ipv6_addr);

    let mut r = FileRenameAt2Event::default();
    r.old_filename[0] = b'a';
    r.new_filename[255] = b'z';
    r.flags = 3;
    let bytes = r.to_bytes();
    assert_eq!(bytes.len(), 568);
    let d = decode_file_rename_at2_event(&bytes).expect("long enough");
    assert_eq!(d.old_filename, r.old_filename);
    assert_eq!(d.new_filename, r.new_filename);
    assert_eq!(d.flags, 3);
}

#[test]
fn kind_family_direction_and_source_codes() {
    assert_eq!(EventKind::ProcessExec.as_u16(), 1);
    assert_eq!(EventKind::NetworkListen.as_u16(), 18);
    assert_eq!(NetworkFamily::Ipv4.as_u16(), 2);
    assert_eq!(ExecSource::Execveat.as_u8(), 2);
    assert_eq!(NetworkDirection::Outbound.as_u8(), 1);
}

#[test]
fn kernel_prefix_filter() {
    let empty = FileFilterConfig::empty();
    assert!(file_passes_filter(&empty, b"/anything", 9));
    let mut f = FileFilterConfig::empty();
    f.prefix_count = 1;
    f.prefixes[0][..4].copy_from_slice(b"/etc");
    f.prefix_lens[0] = 4;
    assert!(file_passes_filter(&f, b"/etc/passwd", 11));
    assert!(!file_passes_filter(&f, b"/var/log", 8));
    assert!(!file_passes_filter(&f, b"/etc", 3));
    f.prefix_lens[0] = 0;
    assert!(!file_passes_filter(&f, b"/etc/passwd", 11));
}

#[test]
fn filter_reads_only_the_prefixes_it_reaches() {
    let mut f = FileFilterConfig::empty();
    f.prefix_count = 1;
    f.prefixes[0][..4].copy_from_slice(b"/etc");
    f.prefix_lens[0] = 4;
    // Lengths past the buffers, in slots the filter never reaches.
    f.prefix_lens[1] = 1000;
    f.prefix_lens[7] = 65;
    assert!(file_passes_filter(&f, b"/etc/hosts", 10));
    assert!(!file_passes_filter(&f, b"/usr", 4));
    // A reached prefix longer than the name is skipped without a read.
    f.prefix_count = 2;
    f.prefixes[1][..4].copy_from_slice(b"/var");
    f.prefix_lens[1] = 500;
    assert!(!file_passes_filter(&f, b"/var/log", 8));
}
