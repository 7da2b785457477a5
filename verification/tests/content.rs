use dnrs::provider::content::{parse_content, ContentError};
use dnrs::provider::nitrado::model::{GetRecordsResponse, Record, RecordMode, TryFromRecordError};
use dnrs::text::{IntErrorKind, ParseIntError};
use dnrs::types::dns;
use dnrs::types::dns::{RecordType, RecordValue};
use dnrs::types::ip::{AddrParseError, Ipv4Addr, Ipv6Addr};

fn parse(t: RecordType, content: &str) -> Result<RecordValue, ContentError> {
    parse_content(t, content.to_string())
}

#[test]
fn a_and_aaaa_round_trip() {
    let v4 = Ipv4Addr::new(203, 0, 113, 7);
    match parse(RecordType::A, &v4.to_string()) {
        Ok(RecordValue::A(ip)) => assert_eq!(ip, v4),
        other => panic!("expected an A value, got {:?}", other),
    }
    let v6 = Ipv6Addr::new(0x2001, 0xdb8, 0, 0, 0, 0, 0, 1);
    match parse(RecordType::AAAA, &v6.to_string()) {
        Ok(RecordValue::AAAA(ip)) => assert_eq!(ip, v6),
        other => panic!("expected an AAAA value, got {:?}", other),
    }
}

#[test]
fn invalid_addresses() {
    assert!(matches!(parse(RecordType::A, "invalid"), Err(ContentError::InvalidIp(AddrParseError::Ipv4))));
    assert!(matches!(parse(RecordType::A, "::1"), Err(ContentError::InvalidIp(AddrParseError::Ipv4))));
    assert!(matches!(parse(RecordType::AAAA, "1.2.3.4"), Err(ContentError::InvalidIp(AddrParseError::Ipv6))));
    assert!(matches!(parse(RecordType::A, " 1.2.3.4"), Err(ContentError::InvalidIp(AddrParseError::Ipv4))));
}

#[test]
fn texts_pass_through_verbatim() {
    assert!(matches!(parse(RecordType::CNAME, "  a  b "), Ok(RecordValue::CNAME(s)) if s == "  a  b "));
    assert!(matches!(parse(RecordType::TXT, "v=spf1 -all"), Ok(RecordValue::TXT(s)) if s == "v=spf1 -all"));
    assert!(matches!(parse(RecordType::SPF, ""), Ok(RecordValue::SPF(s)) if s.is_empty()));
    assert!(matches!(parse(RecordType::NS, "ns1"), Ok(RecordValue::NS(s)) if s == "ns1"));
    assert!(matches!(parse(RecordType::SOA, "x y"), Ok(RecordValue::SOA(s)) if s == "x y"));
}

#[test]
fn mx_wrong_token_count() {
    for content in ["", "10", "10 a b", "   ", "mail.example.com"] {
        match parse(RecordType::MX, content) {
            Err(ContentError::InvalidMxFormat(c)) => assert_eq!(c, content),
            other => panic!("expected a format failure for {:?}, got {:?}", content, other),
        }
    }
}

#[test]
fn srv_wrong_token_count() {
    for content in ["", "1 2 3", "1 2 3 t u", "5 5060 sip.example.com"] {
        match parse(RecordType::SRV, content) {
            Err(ContentError::InvalidSrvFormat(c)) => assert_eq!(c, content),
            other => panic!("expected a format failure for {:?}, got {:?}", content, other),
        }
    }
}

#[test]
fn tlsa_wrong_token_count() {
    for content in ["", "3 1 1", "3 1 1 ab cd"] {
        match parse(RecordType::TLSA, content) {
            Err(ContentError::InvalidTlsaFormat(c)) => assert_eq!(c, content),
            other => panic!("expected a format failure for {:?}, got {:?}", content, other),
        }
    }
}

#[test]
fn caa_wrong_token_count() {
    for content in ["", "0 issue", "0 issue a b"] {
        match parse(RecordType::CAA, content) {
            Err(ContentError::InvalidCaaFormat(c)) => assert_eq!(c, content),
            other => panic!("expected a format failure for {:?}, got {:?}", content, other),
        }
    }
}

#[test]
fn numbers_that_do_not_parse() {
    assert!(matches!(
        parse(RecordType::MX, "ten mail"),
        Err(ContentError::InvalidMxPriority(ParseIntError { kind: IntErrorKind::InvalidDigit }))
    ));
    assert!(matches!(
        parse(RecordType::MX, "65536 mail"),
        Err(ContentError::InvalidMxPriority(ParseIntError { kind: IntErrorKind::PosOverflow }))
    ));
    assert!(matches!(parse(RecordType::MX, "-1 mail"), Err(ContentError::InvalidMxPriority(_))));
    assert!(matches!(parse(RecordType::SRV, "a 2 3 t"), Err(ContentError::InvalidSrvValue(_))));
    assert!(matches!(parse(RecordType::SRV, "1 b 3 t"), Err(ContentError::InvalidSrvValue(_))));
    assert!(matches!(parse(RecordType::SRV, "1 2 70000 t"), Err(ContentError::InvalidSrvValue(_))));
    assert!(matches!(parse(RecordType::TLSA, "x 1 1 d"), Err(ContentError::InvalidTlsaValue(_))));
    assert!(matches!(parse(RecordType::TLSA, "3 x 1 d"), Err(ContentError::InvalidTlsaValue(_))));
    assert!(matches!(parse(RecordType::TLSA, "3 1 x d"), Err(ContentError::InvalidTlsaValue(_))));
    assert!(matches!(
        parse(RecordType::CAA, "256 issue ca"),
        Err(ContentError::InvalidCaaFlag(ParseIntError { kind: IntErrorKind::PosOverflow }))
    ));
    assert!(matches!(parse(RecordType::CAA, "f issue ca"), Err(ContentError::InvalidCaaFlag(_))));
}

#[test]
fn values_with_odd_spacing() {
    match parse(RecordType::MX, "  +10\t mail.example.com\n") {
        Ok(RecordValue::MX(mx)) => {
            assert_eq!(mx.priority, 10);
            assert_eq!(mx.target, "mail.example.com");
        }
        other => panic!("expected an MX value, got {:?}", other),
    }
    match parse(RecordType::CAA, "128\u{a0}issuewild\u{3000};") {
        Ok(RecordValue::CAA(flag, tag, value)) => {
            assert_eq!(flag, 128);
            assert_eq!(tag, "issuewild");
            assert_eq!(value, ";");
        }
        other => panic!("expected a CAA value, got {:?}", other),
    }
    match parse(RecordType::TLSA, "65535 0 00 ab") {
        Ok(RecordValue::TLSA(a, b, c, d)) => {
            assert_eq!((a, b, c), (65535, 0, 0));
            assert_eq!(d, "ab");
        }
        other => panic!("expected a TLSA value, got {:?}", other),
    }
}

#[test]
fn record_type_of_a_value() {
    assert_eq!(parse(RecordType::TXT, "x").unwrap().record_type(), RecordType::TXT);
    assert_eq!(parse(RecordType::MX, "1 m").unwrap().record_type(), RecordType::MX);
    assert_eq!(parse(RecordType::A, "1.1.1.1").unwrap().record_type(), RecordType::A);
}

fn nitrado(type_: RecordType, content: &str) -> Record {
    Record { type_, content: content.to_string(), name: "example.com".to_string(), mode: RecordMode::Auto }
}

#[test]
fn nitrado_scenario_a_record() {
    let record = dns::Record::try_from(Record {
        type_: RecordType::A,
        content: "1.2.3.4".to_string(),
        name: "example.com".to_string(),
        mode: RecordMode::Manual,
    })
    .unwrap();
    assert_eq!(record.domain, "example.com");
    assert_eq!(record.ttl, None);
    assert!(matches!(record.value, RecordValue::A(ip) if ip == Ipv4Addr::new(1, 2, 3, 4)));
}

#[test]
fn nitrado_refuses_ns_and_soa() {
    assert!(matches!(
        dns::Record::try_from(nitrado(RecordType::SOA, "x")),
        Err(TryFromRecordError::UnsupportedRecordType(RecordType::SOA))
    ));
    assert!(matches!(
        dns::Record::try_from(nitrado(RecordType::NS, "x")),
        Err(TryFromRecordError::UnsupportedRecordType(RecordType::NS))
    ));
}

#[test]
fn nitrado_batch_is_all_or_nothing() {
    let response = GetRecordsResponse {
        status: "success".to_string(),
        message: vec![nitrado(RecordType::A, "1.2.3.4"), nitrado(RecordType::CAA, "0 issue ca")],
    };
    let records = Vec::<dns::Record>::try_from(response).unwrap();
    assert_eq!(records.len(), 2);
    assert!(records.iter().all(|r| r.ttl.is_none() && r.domain == "example.com"));
    let response = GetRecordsResponse {
        status: "success".to_string(),
        message: vec![
            nitrado(RecordType::A, "1.2.3.4"),
            nitrado(RecordType::SRV, "1 2 3"),
            nitrado(RecordType::NS, "ns"),
        ],
    };
    assert!(matches!(
        Vec::<dns::Record>::try_from(response),
        Err(TryFromRecordError::InvalidSrvFormat(c)) if c == "1 2 3"
    ));
}
