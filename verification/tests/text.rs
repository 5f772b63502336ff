use rand_guard::text::{contains, fixed_string, starts_with, text_eq};

#[test]
fn fixed_string_stops_at_the_nul() {
    let mut comm = [0u8; 16];
    comm[..4].copy_from_slice(b"bash");
    comm[5] = b'x';
    assert_eq!(fixed_string(&comm, 16), "bash");
    assert_eq!(fixed_string(b"abcdef", 3), "abc");
    assert_eq!(fixed_string(b"", 0), "");
}

#[test]
fn fixed_string_replaces_invalid_utf8() {
    let bytes = [b'a', 0xff, b'b', 0];
    assert_eq!(fixed_string(&bytes, 4), "a\u{FFFD}b");
    let accented = "é".as_bytes();
    assert_eq!(fixed_string(accented, accented.len()), "é");
}

#[test]
fn text_predicates() {
    assert!(text_eq("nc", "nc"));
    assert!(!text_eq("nc", "ncat"));
    assert!(starts_with("/etc/cron.d/x", "/etc/cron.d/"));
    assert!(!starts_with("/etc", "/etc/"));
    assert!(contains("/home/u/.ssh/authorized_keys", ".ssh/"));
    assert!(!contains("abc", "abd"));
    assert!(contains("abc", ""));
}
