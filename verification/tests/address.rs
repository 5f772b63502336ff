use rand_guard::normalize::address::{network_addr, network_family};

fn v6(groups: [u16; 8]) -> [u8; 16] {
    let mut b = [0u8; 16];
    for (i, g) in groups.iter().enumerate() {
        b[2 * i] = (g >> 8) as u8;
        b[2 * i + 1] = (g & 0xff) as u8;
    }
    b
}

#[test]
fn family_names() {
    assert_eq!(network_family(2), "ipv4");
    assert_eq!(network_family(10), "ipv6");
    assert_eq!(network_family(1), "unknown");
}

#[test]
fn ipv4_is_dotted_most_significant_first() {
    assert_eq!(network_addr(2, u32::from_be_bytes([127, 0, 0, 1]), &[0; 16]), "127.0.0.1");
    assert_eq!(network_addr(2, u32::from_be_bytes([10, 200, 3, 255]), &[0; 16]), "10.200.3.255");
    assert_eq!(network_addr(7, 1, &[1; 16]), "");
}

#[test]
fn ipv6_compresses_the_first_longest_zero_run() {
    assert_eq!(network_addr(10, 0, &v6([0; 8])), "::");
    assert_eq!(network_addr(10, 0, &v6([0, 0, 0, 0, 0, 0, 0, 1])), "::1");
    assert_eq!(network_addr(10, 0, &v6([0x2001, 0xdb8, 0, 0, 1, 0, 0, 1])), "2001:db8::1:0:0:1");
    assert_eq!(network_addr(10, 0, &v6([0x2001, 0xdb8, 0, 0, 0, 1, 0, 0])), "2001:db8::1:0:0");
    assert_eq!(network_addr(10, 0, &v6([0xfe80, 0, 0, 0, 0xabcd, 0xef, 0x12, 0x3400])), "fe80::abcd:ef:12:3400");
    assert_eq!(network_addr(10, 0, &v6([1, 0, 2, 0, 3, 0, 4, 0])), "1:0:2:0:3:0:4:0");
    assert_eq!(network_addr(10, 0, &v6([1, 2, 3, 4, 5, 6, 7, 0])), "1:2:3:4:5:6:7:0");
    assert_eq!(network_addr(10, 0, &v6([1, 0, 0, 2, 3, 4, 5, 6])), "1::2:3:4:5:6");
}

#[test]
fn ipv6_mapped_ipv4_uses_dotted_tail() {
    assert_eq!(
        network_addr(10, 0, &v6([0, 0, 0, 0, 0, 0xffff, 0xc000, 0x0201])),
        "::ffff:192.0.2.1"
    );
}
