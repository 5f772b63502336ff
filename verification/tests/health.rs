use rand_guard::health::parse_rss_kb;

#[test]
fn parses_rss_from_proc_status() {
    let sample = "\
Name:\tedr-user
Umask:\t0022
State:\tS (sleeping)
VmPeak:\t   12345 kB
VmSize:\t   11000 kB
VmRSS:\t    8192 kB
VmData:\t    4096 kB
";
    assert_eq!(parse_rss_kb(sample), Some(8192));
}

#[test]
fn returns_none_when_rss_missing() {
    let sample = "Name:\tedr-user\nState:\tS (sleeping)\n";
    assert_eq!(parse_rss_kb(sample), None);
}

#[test]
fn rss_value_that_does_not_parse_gives_none() {
    assert_eq!(parse_rss_kb("VmRSS:\t 12x4 kB\nVmRSS:\t 8 kB\n"), None);
    assert_eq!(parse_rss_kb("VmRSS:\t 99999999999999999999 kB\n"), None);
}

#[test]
fn rss_line_without_kb_suffix_is_skipped() {
    assert_eq!(parse_rss_kb("VmRSS:\t 12 MB\nVmRSS:\t +7 kB\r\n"), Some(7));
}

#[test]
fn rss_at_end_without_newline_and_largest_value() {
    assert_eq!(parse_rss_kb("VmRSS:18446744073709551615kB"), Some(u64::MAX));
    assert_eq!(parse_rss_kb("VmRSS: kB"), None);
    assert_eq!(parse_rss_kb(""), None);
}
