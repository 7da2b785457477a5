use dnrs::provider::netcup::model::{GetRecordsResponse, Record, TryFromRecordError};
use dnrs::text::{IntErrorKind, ParseIntError};
use dnrs::types::dns;
use dnrs::types::dns::{RecordType, RecordValue};

fn api_record(type_: RecordType, priority: Option<&str>, destination: &str) -> Record {
    Record {
        id: Some("7".to_string()),
        hostname: "www".to_string(),
        type_,
        priority: priority.map(|p| p.to_string()),
        destination: destination.to_string(),
        deleterecord: Some(false),
        state: Some("yes".to_string()),
    }
}

#[test]
fn netcup_a_record() {
    let record = dns::Record::try_from(api_record(RecordType::A, None, "1.2.3.4")).unwrap();
    assert_eq!(record.domain, "www");
    assert_eq!(record.ttl, None);
    match record.value {
        RecordValue::A(ip) => assert_eq!(ip.octets(), [1, 2, 3, 4]),
        _ => panic!("Expected A record"),
    }
}

#[test]
fn netcup_mx_reads_priority_from_its_field() {
    let record = dns::Record::try_from(api_record(RecordType::MX, Some("10"), "mail.example.com")).unwrap();
    match record.value {
        RecordValue::MX(mx) => {
            assert_eq!(mx.priority, 10);
            assert_eq!(mx.target, "mail.example.com");
        }
        _ => panic!("Expected MX record"),
    }
}

#[test]
fn netcup_mx_keeps_the_destination_whole() {
    let record = dns::Record::try_from(api_record(RecordType::MX, Some("5"), "a b  c")).unwrap();
    match record.value {
        RecordValue::MX(mx) => assert_eq!(mx.target, "a b  c"),
        _ => panic!("Expected MX record"),
    }
}

#[test]
fn netcup_mx_without_priority() {
    match dns::Record::try_from(api_record(RecordType::MX, None, "mail.example.com")) {
        Err(TryFromRecordError::InvalidMxFormat(reason)) => assert_eq!(reason, "MX record missing priority"),
        other => panic!("expected a format failure, got {:?}", other),
    }
}

#[test]
fn netcup_mx_with_bad_priority() {
    assert!(matches!(
        dns::Record::try_from(api_record(RecordType::MX, Some("ten"), "mail.example.com")),
        Err(TryFromRecordError::InvalidMxPriority(ParseIntError { kind: IntErrorKind::InvalidDigit }))
    ));
    assert!(matches!(
        dns::Record::try_from(api_record(RecordType::MX, Some(""), "mail.example.com")),
        Err(TryFromRecordError::InvalidMxPriority(ParseIntError { kind: IntErrorKind::Empty }))
    ));
    assert!(matches!(
        dns::Record::try_from(api_record(RecordType::MX, Some("65536"), "mail.example.com")),
        Err(TryFromRecordError::InvalidMxPriority(ParseIntError { kind: IntErrorKind::PosOverflow }))
    ));
}

#[test]
fn netcup_srv_takes_three_tokens_and_the_priority_field() {
    let record = dns::Record::try_from(api_record(RecordType::SRV, Some("1"), "5 5060 sip.example.com")).unwrap();
    match record.value {
        RecordValue::SRV(priority, weight, port, target) => {
            assert_eq!((priority, weight, port), (1, 5, 5060));
            assert_eq!(target, "sip.example.com");
        }
        _ => panic!("Expected SRV record"),
    }
}

#[test]
fn netcup_srv_failures() {
    match dns::Record::try_from(api_record(RecordType::SRV, Some("1"), "0 5 5060 sip.example.com")) {
        Err(TryFromRecordError::InvalidSrvFormat(content)) => assert_eq!(content, "0 5 5060 sip.example.com"),
        other => panic!("expected a format failure, got {:?}", other),
    }
    match dns::Record::try_from(api_record(RecordType::SRV, None, "5 5060 sip.example.com")) {
        Err(TryFromRecordError::InvalidSrvFormat(reason)) => assert_eq!(reason, "SRV record missing priority"),
        other => panic!("expected a format failure, got {:?}", other),
    }
    assert!(matches!(
        dns::Record::try_from(api_record(RecordType::SRV, Some("x"), "5 5060 sip.example.com")),
        Err(TryFromRecordError::InvalidSrvValue(_))
    ));
    assert!(matches!(
        dns::Record::try_from(api_record(RecordType::SRV, Some("1"), "5 port sip.example.com")),
        Err(TryFromRecordError::InvalidSrvValue(_))
    ));
}

#[test]
fn netcup_tlsa_and_caa() {
    match dns::Record::try_from(api_record(RecordType::TLSA, None, "3 1 1 abcdef")).unwrap().value {
        RecordValue::TLSA(usage, selector, matching, data) => {
            assert_eq!((usage, selector, matching), (3, 1, 1));
            assert_eq!(data, "abcdef");
        }
        _ => panic!("Expected TLSA record"),
    }
    match dns::Record::try_from(api_record(RecordType::CAA, None, "0 issue letsencrypt.org")).unwrap().value {
        RecordValue::CAA(flag, tag, value) => {
            assert_eq!(flag, 0);
            assert_eq!(tag, "issue");
            assert_eq!(value, "letsencrypt.org");
        }
        _ => panic!("Expected CAA record"),
    }
}

#[test]
fn netcup_batch() {
    let response = GetRecordsResponse {
        records: vec![
            api_record(RecordType::NS, None, "ns1.example.com"),
            api_record(RecordType::MX, Some("10"), "mail.example.com"),
        ],
    };
    let records = Vec::<dns::Record>::try_from(response).unwrap();
    assert_eq!(records.len(), 2);
    assert!(matches!(&records[0].value, RecordValue::NS(s) if s == "ns1.example.com"));
    let response = GetRecordsResponse {
        records: vec![
            api_record(RecordType::MX, None, "mail.example.com"),
            api_record(RecordType::A, None, "bad"),
        ],
    };
    assert!(matches!(
        Vec::<dns::Record>::try_from(response),
        Err(TryFromRecordError::InvalidMxFormat(_))
    ));
}
