use sidedns_core::{dns_listen_addr, proxy_listen_addr, IpAddress, SocketTarget};

fn v6(g: [u16; 8]) -> String {
    IpAddress::V6(g).to_text()
}

#[test]
fn ipv6_unspecified_and_loopback() {
    assert_eq!(v6([0; 8]), "::");
    assert_eq!(v6([0, 0, 0, 0, 0, 0, 0, 1]), "::1");
    assert_eq!(v6([1, 0, 0, 0, 0, 0, 0, 0]), "1::");
}

#[test]
fn ipv6_compresses_first_longest_zero_run() {
    assert_eq!(v6([0xfe80, 0, 0, 0, 0, 0, 0, 0x1a]), "fe80::1a");
    assert_eq!(v6([0x2001, 0xdb8, 0, 0, 1, 0, 0, 1]), "2001:db8::1:0:0:1");
    assert_eq!(v6([1, 0, 0, 2, 0, 0, 0, 3]), "1:0:0:2::3");
}

#[test]
fn ipv6_single_zero_group_is_not_compressed() {
    assert_eq!(v6([0x2001, 0xdb8, 0, 1, 1, 1, 1, 1]), "2001:db8:0:1:1:1:1:1");
}

#[test]
fn ipv6_lower_case_hex_without_leading_zeros() {
    assert_eq!(v6([0xABCD, 0x00EF, 0x0001, 0x1000, 0xFFFF, 0x0a0b, 0x0c0d, 0x0e0f]), "abcd:ef:1:1000:ffff:a0b:c0d:e0f");
}

#[test]
fn ipv6_ipv4_mapped() {
    assert_eq!(v6([0, 0, 0, 0, 0, 0xffff, 0xc000, 0x0280]), "::ffff:192.0.2.128");
}

#[test]
fn ipv4_text() {
    assert_eq!(IpAddress::V4([10, 0, 0, 255]).to_text(), "10.0.0.255");
}

#[test]
fn socket_texts() {
    assert_eq!(SocketTarget::new(IpAddress::V4([127, 0, 0, 1]), 80).to_text(), "127.0.0.1:80");
    assert_eq!(SocketTarget::new(IpAddress::V6([0, 0, 0, 0, 0, 0, 0, 1]), 8080).to_text(), "[::1]:8080");
}

#[test]
fn daemon_listen_addresses() {
    assert_eq!(dns_listen_addr().to_text(), "127.0.53.53:53");
    assert_eq!(proxy_listen_addr().to_text(), "127.0.0.42:80");
}

#[test]
fn unspecified_addresses() {
    assert!(IpAddress::V4([0, 0, 0, 0]).is_unspecified());
    assert!(IpAddress::V6([0; 8]).is_unspecified());
    assert!(!IpAddress::V4([127, 0, 0, 1]).is_unspecified());
}
