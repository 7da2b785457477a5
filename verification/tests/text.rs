use dnrs::text::{
    char_is_whitespace, parse_u16, parse_u8, split_at_char, split_whitespace, str_contains,
    str_eq, trim, IntErrorKind, ParseIntError,
};

#[test]
fn whitespace_is_unicode_white_space() {
    for c in 0..=0x10ffffu32 {
        if let Some(c) = char::from_u32(c) {
            assert_eq!(char_is_whitespace(c), c.is_whitespace(), "{:?}", c);
        }
    }
}

#[test]
fn split_whitespace_agrees_with_std() {
    for s in ["", " ", "a", " a ", "a b", "a  b\tc\nd", "\u{a0}x\u{2003}y\u{3000}", "10 mail.example.com", "é ü  ß"] {
        let ours = split_whitespace(s);
        let theirs: Vec<String> = s.split_whitespace().map(|t| t.to_string()).collect();
        assert_eq!(ours, theirs, "splitting {:?}", s);
    }
}

#[test]
fn trim_agrees_with_std() {
    for s in ["", " ", "a", " a ", "\n203.0.113.7\n", "a b ", "\u{a0}x y\u{3000}", "   ", "é "] {
        assert_eq!(trim(s), s.trim(), "trimming {:?}", s);
    }
}

#[test]
fn split_at_char_agrees_with_std() {
    for s in ["", ".", "a", "a.b", "a..b", ".a.", "data.ip", "a.b.c", "é.ü"] {
        let ours = split_at_char(s, '.');
        let theirs: Vec<String> = s.split('.').map(|t| t.to_string()).collect();
        assert_eq!(ours, theirs, "splitting {:?}", s);
    }
    assert_eq!(split_at_char("", '.'), vec![""]);
}

#[test]
fn unsigned_numbers_agree_with_std() {
    for s in [
        "", "0", "1", "+1", "+", "-", "-1", "65535", "65536", "0065535", "99999", "99999x", "1x99999",
        "255", "256", "+255", " 1", "1 ", "١", "000", "4294967296", "18446744073709551616", "++1", "1+",
    ] {
        let ours = parse_u16(s).map_err(|e| e.kind);
        let theirs = s.parse::<u16>().map_err(|e| match e.kind() {
            std::num::IntErrorKind::Empty => IntErrorKind::Empty,
            std::num::IntErrorKind::InvalidDigit => IntErrorKind::InvalidDigit,
            _ => IntErrorKind::PosOverflow,
        });
        assert_eq!(ours, theirs, "parsing {:?} as u16", s);
        let ours = parse_u8(s).map_err(|e| e.kind);
        let theirs = s.parse::<u8>().map_err(|e| match e.kind() {
            std::num::IntErrorKind::Empty => IntErrorKind::Empty,
            std::num::IntErrorKind::InvalidDigit => IntErrorKind::InvalidDigit,
            _ => IntErrorKind::PosOverflow,
        });
        assert_eq!(ours, theirs, "parsing {:?} as u8", s);
    }
}

#[test]
fn exact_numbers() {
    assert_eq!(parse_u16("5060"), Ok(5060));
    assert_eq!(parse_u8("+7"), Ok(7));
    assert_eq!(parse_u8("300"), Err(ParseIntError { kind: IntErrorKind::PosOverflow }));
}

#[test]
fn messages_of_number_failures() {
    assert_eq!(ParseIntError { kind: IntErrorKind::Empty }.to_string(), "cannot parse integer from empty string");
    assert_eq!(ParseIntError { kind: IntErrorKind::InvalidDigit }.to_string(), "invalid digit found in string");
    assert_eq!(
        ParseIntError { kind: IntErrorKind::PosOverflow }.to_string(),
        "number too large to fit in target type"
    );
}

#[test]
fn equality_and_containment() {
    assert!(str_eq("", ""));
    assert!(str_eq("abc", "abc"));
    assert!(!str_eq("abc", "abd"));
    assert!(!str_eq("abc", "ab"));
    for (s, p) in [("", ""), ("a", ""), ("", "a"), ("hetzner-domains", "hetzner"), ("my-netcup", "netcup"), ("hetzne", "hetzner"), ("xxhetznerxx", "hetzner"), ("ababac", "abac")] {
        assert_eq!(str_contains(s, p), s.contains(p), "{:?} in {:?}", p, s);
    }
}
