use weaviate_embedded::address::{IpAddress, SocketAddress};
use weaviate_embedded::socket_text::parse_socket;

fn v4(a: u8, b: u8, c: u8, d: u8, port: u16) -> Option<SocketAddress> {
    Some(SocketAddress { ip: IpAddress::V4(a, b, c, d), port })
}

fn v6(g: [u16; 8], port: u16) -> Option<SocketAddress> {
    Some(SocketAddress {
        ip: IpAddress::V6(g[0], g[1], g[2], g[3], g[4], g[5], g[6], g[7]),
        port,
    })
}

#[test]
fn bracketed_addresses_are_read() {
    assert_eq!(parse_socket("[::1]:8079"), v6([0, 0, 0, 0, 0, 0, 0, 1], 8079));
    assert_eq!(parse_socket("[::]:0"), v6([0; 8], 0));
    assert_eq!(parse_socket("[1::]:9"), v6([1, 0, 0, 0, 0, 0, 0, 0], 9));
    assert_eq!(parse_socket("[1:2:3:4:5:6:7:8]:1"), v6([1, 2, 3, 4, 5, 6, 7, 8], 1));
    assert_eq!(
        parse_socket("[2001:db8::ff00:42:8329]:443"),
        v6([0x2001, 0xdb8, 0, 0, 0, 0xff00, 0x42, 0x8329], 443)
    );
    assert_eq!(
        parse_socket("[ABCD:ef01::]:5"),
        v6([0xabcd, 0xef01, 0, 0, 0, 0, 0, 0], 5)
    );
    assert_eq!(parse_socket("[1:2:3:4:5:6:7::]:5"), v6([1, 2, 3, 4, 5, 6, 7, 0], 5));
    assert_eq!(parse_socket("[::2:3:4:5:6:7:8]:5"), v6([0, 2, 3, 4, 5, 6, 7, 8], 5));
    assert_eq!(parse_socket("[0001:0:00:000::]:65535"), v6([1, 0, 0, 0, 0, 0, 0, 0], 65535));
}

#[test]
fn dotted_tail_counts_as_two_groups() {
    assert_eq!(
        parse_socket("[::ffff:192.168.1.1]:80"),
        v6([0, 0, 0, 0, 0, 0xffff, 0xc0a8, 0x0101], 80)
    );
    assert_eq!(
        parse_socket("[1:2:3:4:5:6:1.2.3.4]:80"),
        v6([1, 2, 3, 4, 5, 6, 0x0102, 0x0304], 80)
    );
    assert_eq!(parse_socket("[::1.2.3.4]:80"), v6([0, 0, 0, 0, 0, 0, 0x0102, 0x0304], 80));
    assert_eq!(parse_socket("[1.2.3.4::]:80"), None);
    assert_eq!(parse_socket("[::1.2.3.4:5]:80"), None);
    assert_eq!(parse_socket("[::1.2.3]:80"), None);
    assert_eq!(parse_socket("[::1.2.3.256]:80"), None);
    assert_eq!(parse_socket("[1:2:3:4:5:6:7:1.2.3.4]:80"), None);
}

#[test]
fn bracketed_texts_out_of_shape_are_not_read() {
    assert_eq!(parse_socket("[:::1]:80"), None);
    assert_eq!(parse_socket("[1::2::3]:80"), None);
    assert_eq!(parse_socket("[1:2:3:4:5:6:7:8:9]:80"), None);
    assert_eq!(parse_socket("[1:2:3:4:5:6:7::8]:80"), None);
    assert_eq!(parse_socket("[1:2:3:4:5:6:7]:80"), None);
    assert_eq!(parse_socket("[::1]"), None);
    assert_eq!(parse_socket("[::1]8079"), None);
    assert_eq!(parse_socket("[::1]:"), None);
    assert_eq!(parse_socket("[::1]:65536"), None);
    assert_eq!(parse_socket("[12345::]:80"), None);
    assert_eq!(parse_socket("[g::]:80"), None);
    assert_eq!(parse_socket("[fe80::1%3]:80"), None);
    assert_eq!(parse_socket("[]:80"), None);
    assert_eq!(parse_socket("[::1:]:80"), None);
    assert_eq!(parse_socket("[:1]:80"), None);
    assert_eq!(parse_socket("[::1"), None);
    assert_eq!(parse_socket("["), None);
    assert_eq!(parse_socket("[127.0.0.1]:80"), None);
}

#[test]
fn addresses_are_read() {
    assert_eq!(parse_socket("127.0.0.1:8079"), v4(127, 0, 0, 1, 8079));
    assert_eq!(parse_socket("0.0.0.0:0"), v4(0, 0, 0, 0, 0));
    assert_eq!(parse_socket("255.255.255.255:65535"), v4(255, 255, 255, 255, 65535));
    assert_eq!(parse_socket("10.20.30.40:50060"), v4(10, 20, 30, 40, 50060));
    assert_eq!(parse_socket("1.2.3.4:080"), v4(1, 2, 3, 4, 80));
    assert_eq!(parse_socket("1.2.3.4:0000000080"), v4(1, 2, 3, 4, 80));
}

#[test]
fn ports_out_of_range_are_not_read() {
    assert_eq!(parse_socket("127.0.0.1:80000"), None);
    assert_eq!(parse_socket("127.0.0.1:65536"), None);
    assert_eq!(parse_socket("127.0.0.1:99999999999999999999"), None);
    assert_eq!(parse_socket("127.0.0.1:"), None);
    assert_eq!(parse_socket("127.0.0.1:-1"), None);
    assert_eq!(parse_socket("127.0.0.1:80 "), None);
    assert_eq!(parse_socket("127.0.0.1:8a"), None);
}

#[test]
fn groups_out_of_shape_are_not_read() {
    assert_eq!(parse_socket("256.0.0.1:80"), None);
    assert_eq!(parse_socket("127.0.0.01:80"), None);
    assert_eq!(parse_socket("127.00.0.1:80"), None);
    assert_eq!(parse_socket("127.0.0:80"), None);
    assert_eq!(parse_socket("127.0.0.1.5:80"), None);
    assert_eq!(parse_socket("127..0.1:80"), None);
    assert_eq!(parse_socket(".0.0.1:80"), None);
    assert_eq!(parse_socket("1270.0.0.1:80"), None);
    assert_eq!(parse_socket("a.b.c.d:80"), None);
    assert_eq!(parse_socket(" 127.0.0.1:80"), None);
}

#[test]
fn other_texts_are_not_read() {
    assert_eq!(parse_socket(""), None);
    assert_eq!(parse_socket("localhost:8079"), None);
    assert_eq!(parse_socket("127.0.0.1"), None);
    assert_eq!(parse_socket("127.0.0.1:80:90"), None);
    assert_eq!(parse_socket("::1:8079"), None);
    assert_eq!(parse_socket("1.2.3.4:٨٠"), None);
}
