use dev_proxy::address::{first_resolved, Address, SocketAddr};
use dev_proxy::text::{push_decimal, push_hex};

fn v6(groups: [u16; 8]) -> [u8; 16] {
    let mut o = [0u8; 16];
    for (i, g) in groups.iter().enumerate() {
        o[2 * i] = (g >> 8) as u8;
        o[2 * i + 1] = (g & 0xff) as u8;
    }
    o
}

fn v6_text(groups: [u16; 8], port: u16) -> String {
    SocketAddr::V6(v6(groups), port, 0, 0).to_string()
}

#[test]
fn decimal_and_hex_digits() {
    let mut s = String::new();
    push_decimal(&mut s, 0);
    s.push(' ');
    push_decimal(&mut s, 65535);
    s.push(' ');
    push_decimal(&mut s, 10);
    assert_eq!(s, "0 65535 10");
    let mut h = String::new();
    push_hex(&mut h, 0xdb8);
    h.push(' ');
    push_hex(&mut h, 0);
    h.push(' ');
    push_hex(&mut h, 0xffff);
    assert_eq!(h, "db8 0 ffff");
}

#[test]
fn ipv4_socket_address_text() {
    assert_eq!(SocketAddr::V4([127, 0, 0, 1], 1080).to_string(), "127.0.0.1:1080");
    assert_eq!(SocketAddr::V4([0, 0, 0, 0], 0).to_string(), "0.0.0.0:0");
    assert_eq!(SocketAddr::V4([255, 10, 100, 9], 65535).to_string(), "255.10.100.9:65535");
}

#[test]
fn ipv6_compresses_first_longest_zero_run() {
    assert_eq!(v6_text([0; 8], 80), "[::]:80");
    assert_eq!(v6_text([0, 0, 0, 0, 0, 0, 0, 1], 443), "[::1]:443");
    assert_eq!(v6_text([0x2001, 0xdb8, 0, 0, 0, 0, 0, 1], 8080), "[2001:db8::1]:8080");
    assert_eq!(v6_text([0x2001, 0xdb8, 0, 0, 1, 0, 0, 1], 1), "[2001:db8::1:0:0:1]:1");
    assert_eq!(v6_text([1, 0, 0, 2, 0, 0, 0, 3], 2), "[1:0:0:2::3]:2");
    assert_eq!(v6_text([0xfe80, 0, 0, 0, 0, 0, 0, 0], 3), "[fe80::]:3");
}

#[test]
fn ipv6_single_zero_group_is_not_compressed() {
    assert_eq!(v6_text([1, 0, 2, 3, 4, 5, 6, 7], 9), "[1:0:2:3:4:5:6:7]:9");
    assert_eq!(v6_text([1, 2, 3, 4, 5, 6, 7, 8], 9), "[1:2:3:4:5:6:7:8]:9");
    assert_eq!(
        v6_text([0xabcd, 0xef01, 0x2345, 0x6789, 0xa, 0xb, 0xc, 0xd], 10),
        "[abcd:ef01:2345:6789:a:b:c:d]:10"
    );
}

#[test]
fn ipv6_mapped_ipv4_text() {
    assert_eq!(
        v6_text([0, 0, 0, 0, 0, 0xffff, 0xc0a8, 0x0001], 22),
        "[::ffff:192.168.0.1]:22"
    );
    assert_eq!(v6_text([0, 0, 0, 0, 0, 0, 0xc0a8, 0x0001], 22), "[::c0a8:1]:22");
}

#[test]
fn target_address_text() {
    let domain = Address::DomainName("example.com".to_string(), 443);
    assert_eq!(domain.to_text(), "example.com:443");
    let v4 = Address::SocketAddr(SocketAddr::V4([10, 0, 0, 2], 8080));
    assert_eq!(v4.to_text(), "10.0.0.2:8080");
    let v6addr = Address::SocketAddr(SocketAddr::V6(v6([0, 0, 0, 0, 0, 0, 0, 1]), 53, 0, 0));
    assert_eq!(v6addr.to_text(), "[::1]:53");
}

#[test]
fn ipv6_scope_id_is_shown_and_flow_info_is_not() {
    let link_local = v6([0xfe80, 0, 0, 0, 0, 0, 0, 1]);
    assert_eq!(SocketAddr::V6(link_local, 8080, 0, 3).to_string(), "[fe80::1%3]:8080");
    assert_eq!(SocketAddr::V6(link_local, 8080, 77, 0).to_string(), "[fe80::1]:8080");
}

#[test]
fn first_resolved_address_is_taken() {
    assert!(first_resolved(&[]).is_none());
    let a = SocketAddr::V4([10, 0, 0, 1], 80);
    let b = SocketAddr::V6(v6([0, 0, 0, 0, 0, 0, 0, 1]), 80, 0, 0);
    let picked = first_resolved(&[a, b]).expect("one candidate at least");
    assert_eq!(picked.to_string(), "10.0.0.1:80");
    let picked = first_resolved(&[b]).expect("one candidate");
    assert_eq!(picked.to_string(), "[::1]:80");
}
