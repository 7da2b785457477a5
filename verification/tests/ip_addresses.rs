use dnrs::types::ip::{AddrParseError, Ipv4Addr, Ipv6Addr};

fn v4(text: &str) -> Option<[u8; 4]> {
    Ipv4Addr::parse(text).ok().map(|ip| ip.octets())
}

fn v6(text: &str) -> Option<[u16; 8]> {
    Ipv6Addr::parse(text).ok().map(|ip| ip.segments())
}

fn addr(s: [u16; 8]) -> Ipv6Addr {
    Ipv6Addr::new(s[0], s[1], s[2], s[3], s[4], s[5], s[6], s[7])
}

#[test]
fn ipv4_accepts_dotted_quads() {
    assert_eq!(v4("1.2.3.4"), Some([1, 2, 3, 4]));
    assert_eq!(v4("0.0.0.0"), Some([0, 0, 0, 0]));
    assert_eq!(v4("255.255.255.255"), Some([255, 255, 255, 255]));
    assert_eq!(v4("203.0.113.7"), Some([203, 0, 113, 7]));
    assert_eq!(v4("192.168.1.255"), Some([192, 168, 1, 255]));
    assert_eq!(v4("10.0.0.1"), Some([10, 0, 0, 1]));
}

#[test]
fn ipv4_refuses_everything_else() {
    for text in [
        "256.1.1.1", "1.2.3", "1.2.3.4.5", "01.2.3.4", "1.2.3.04", "1.2.3.4 ", " 1.2.3.4", "",
        ".", "...", "1..2.3", "a.b.c.d", "1.2.3.-4", "+1.2.3.4", "1.2.3.4.", ".1.2.3.4",
        "0.00.0.0", "1.2.3.1000", "999.1.1.1", "٣.1.1.1", "1.2.3.4\n", "0x1.2.3.4", "invalid",
        "1,2,3,4", "1.2.3.4/24", "::1",
    ] {
        assert_eq!(v4(text), None, "parsing {:?}", text);
    }
}

#[test]
fn ipv6_accepts_full_and_shortened_forms() {
    assert_eq!(v6("::"), Some([0; 8]));
    assert_eq!(v6("::1"), Some([0, 0, 0, 0, 0, 0, 0, 1]));
    assert_eq!(v6("1::"), Some([1, 0, 0, 0, 0, 0, 0, 0]));
    assert_eq!(v6("1::2"), Some([1, 0, 0, 0, 0, 0, 0, 2]));
    assert_eq!(v6("1:2:3:4:5:6:7:8"), Some([1, 2, 3, 4, 5, 6, 7, 8]));
    assert_eq!(v6("1:2:3:4:5:6:7::"), Some([1, 2, 3, 4, 5, 6, 7, 0]));
    assert_eq!(v6("::2:3:4:5:6:7:8"), Some([0, 2, 3, 4, 5, 6, 7, 8]));
    assert_eq!(v6("1:2:3::6:7:8"), Some([1, 2, 3, 0, 0, 6, 7, 8]));
    assert_eq!(v6("fe80::1"), Some([0xfe80, 0, 0, 0, 0, 0, 0, 1]));
    assert_eq!(v6("FE80::ABCD"), Some([0xfe80, 0, 0, 0, 0, 0, 0, 0xabcd]));
    assert_eq!(v6("::0001"), Some([0, 0, 0, 0, 0, 0, 0, 1]));
    assert_eq!(v6("00::"), Some([0; 8]));
    assert_eq!(v6("0:0:0:0:0:0:0:0"), Some([0; 8]));
    assert_eq!(
        v6("2001:db8::ff00:42:8329"),
        Some([0x2001, 0xdb8, 0, 0, 0, 0xff00, 0x42, 0x8329])
    );
    assert_eq!(
        v6("2001:0db8:0000:0000:0000:ff00:0042:8329"),
        Some([0x2001, 0xdb8, 0, 0, 0, 0xff00, 0x42, 0x8329])
    );
}

#[test]
fn ipv6_accepts_a_trailing_dotted_quad() {
    assert_eq!(v6("::ffff:1.2.3.4"), Some([0, 0, 0, 0, 0, 0xffff, 0x0102, 0x0304]));
    assert_eq!(v6("::1.2.3.4"), Some([0, 0, 0, 0, 0, 0, 0x0102, 0x0304]));
    assert_eq!(v6("1:2:3:4:5:6:1.2.3.4"), Some([1, 2, 3, 4, 5, 6, 0x0102, 0x0304]));
    assert_eq!(v6("1::1.2.3.4"), Some([1, 0, 0, 0, 0, 0, 0x0102, 0x0304]));
    assert_eq!(v6("1:2:3:4:5::1.2.3.4"), Some([1, 2, 3, 4, 5, 0, 0x0102, 0x0304]));
    assert_eq!(v6("::255.255.255.255"), Some([0, 0, 0, 0, 0, 0, 0xffff, 0xffff]));
}

#[test]
fn ipv6_refuses_everything_else() {
    for text in [
        "1:2:3:4:5:6:7:8::", "::1:2:3:4:5:6:7:8", "1:2:3:4::5:6:7:8", "1:2:3:4:5:6:7", ":",
        ":::", "1:::2", "1::2::3", "1:2:3:4:5:6:7:1.2.3.4", "1.2.3.4::", "1.2.3.4:1:2:3:4:5:6",
        "::1.2.3.4:5", "12345::", "::12345", "g::", "::g", "1:2:3:4:5:6:7:8:9", "", " ::",
        ":: ", "::1%eth0", "1:2:3:4:5:6::1.2.3.4", "::01.2.3.4", "::1.2.3", ":1:2:3:4:5:6:7",
        "1:2:3:4:5:6:7:", "::ffff:256.1.1.1", "+1::", "1:2::3:4:5:6:7:8", "1:2:3:4:5:6:7::8",
        "::1:", ":1::", "1.2.3.4", "invalid",
    ] {
        assert_eq!(v6(text), None, "parsing {:?}", text);
    }
}

#[test]
fn ipv4_text() {
    assert_eq!(Ipv4Addr::new(0, 0, 0, 0).to_string(), "0.0.0.0");
    assert_eq!(Ipv4Addr::new(1, 2, 3, 4).to_string(), "1.2.3.4");
    assert_eq!(Ipv4Addr::new(255, 255, 255, 255).to_string(), "255.255.255.255");
    assert_eq!(Ipv4Addr::new(10, 0, 100, 9).to_string(), "10.0.100.9");
    assert_eq!(Ipv4Addr::new(99, 100, 101, 199).to_string(), "99.100.101.199");
}

#[test]
fn ipv6_text() {
    assert_eq!(addr([0, 0, 0, 0, 0, 0, 0, 0]).to_string(), "::");
    assert_eq!(addr([0, 0, 0, 0, 0, 0, 0, 1]).to_string(), "::1");
    assert_eq!(addr([1, 0, 0, 0, 0, 0, 0, 0]).to_string(), "1::");
    assert_eq!(addr([1, 2, 3, 4, 5, 6, 7, 8]).to_string(), "1:2:3:4:5:6:7:8");
    assert_eq!(
        addr([0x2001, 0xdb8, 0, 0, 0, 0xff00, 0x42, 0x8329]).to_string(),
        "2001:db8::ff00:42:8329"
    );
    assert_eq!(addr([0xfe80, 0, 0, 0, 0, 0, 0, 0xabcd]).to_string(), "fe80::abcd");
    assert_eq!(
        addr([0xffff; 8]).to_string(),
        "ffff:ffff:ffff:ffff:ffff:ffff:ffff:ffff"
    );
    assert_eq!(addr([0x10, 0x100, 0x1000, 0xf, 0xff, 0xfff, 0xa0b, 0]).to_string(), "10:100:1000:f:ff:fff:a0b:0");
}

#[test]
fn ipv6_text_shortens_the_first_longest_run_of_zeros() {
    assert_eq!(addr([1, 0, 0, 2, 0, 0, 0, 3]).to_string(), "1:0:0:2::3");
    assert_eq!(addr([1, 0, 0, 2, 3, 0, 0, 4]).to_string(), "1::2:3:0:0:4");
    assert_eq!(addr([1, 0, 0, 2, 0, 0, 3, 4]).to_string(), "1::2:0:0:3:4");
    assert_eq!(addr([0, 0, 1, 2, 3, 4, 0, 0]).to_string(), "::1:2:3:4:0:0");
    assert_eq!(addr([1, 2, 3, 4, 5, 6, 0, 0]).to_string(), "1:2:3:4:5:6::");
}

#[test]
fn ipv6_text_keeps_a_single_zero() {
    assert_eq!(addr([1, 0, 2, 0, 3, 0, 4, 0]).to_string(), "1:0:2:0:3:0:4:0");
    assert_eq!(addr([0, 1, 2, 3, 4, 5, 6, 7]).to_string(), "0:1:2:3:4:5:6:7");
    assert_eq!(addr([1, 2, 3, 4, 5, 6, 7, 0]).to_string(), "1:2:3:4:5:6:7:0");
}

#[test]
fn ipv6_text_of_mapped_addresses() {
    assert_eq!(addr([0, 0, 0, 0, 0, 0xffff, 0x0102, 0x0304]).to_string(), "::ffff:1.2.3.4");
    assert_eq!(addr([0, 0, 0, 0, 0, 0xffff, 0, 0]).to_string(), "::ffff:0.0.0.0");
    assert_eq!(addr([0, 0, 0, 0, 0, 0, 0x0102, 0x0304]).to_string(), "::102:304");
    assert_eq!(addr([0, 0, 0, 0, 0, 0xfffe, 0x0102, 0x0304]).to_string(), "::fffe:102:304");
}

#[test]
fn ipv4_round_trip() {
    for octets in [[0, 0, 0, 0], [1, 2, 3, 4], [255, 255, 255, 255], [203, 0, 113, 7], [100, 10, 1, 0]] {
        let ip = Ipv4Addr::new(octets[0], octets[1], octets[2], octets[3]);
        assert_eq!(Ipv4Addr::parse(&ip.to_string()), Ok(ip));
    }
}

#[test]
fn ipv6_round_trip() {
    for segments in [
        [0, 0, 0, 0, 0, 0, 0, 0],
        [0, 0, 0, 0, 0, 0, 0, 1],
        [1, 0, 0, 2, 0, 0, 0, 3],
        [0, 0, 0, 0, 0, 0xffff, 0xc000, 0x0201],
        [0, 0, 0, 0, 0, 0, 0x0102, 0x0304],
        [0x2001, 0xdb8, 0, 0, 0, 0xff00, 0x42, 0x8329],
        [1, 2, 3, 4, 5, 6, 7, 8],
        [1, 0, 2, 0, 3, 0, 4, 0],
        [0xffff; 8],
    ] {
        let ip = addr(segments);
        assert_eq!(Ipv6Addr::parse(&ip.to_string()), Ok(ip));
    }
}

#[test]
fn ipv4_round_trip_of_every_octet() {
    for n in 0..=255u8 {
        let ip = Ipv4Addr::new(n, 255 - n, n / 2, n);
        assert_eq!(Ipv4Addr::parse(&ip.to_string()), Ok(ip));
    }
}

#[test]
fn parse_errors_name_the_family() {
    assert_eq!(Ipv4Addr::parse("::1"), Err(AddrParseError::Ipv4));
    assert_eq!(Ipv6Addr::parse("1.2.3.4"), Err(AddrParseError::Ipv6));
}
