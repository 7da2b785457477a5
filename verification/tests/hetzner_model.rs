use dnrs::provider::hetzner::model::{GetRecordsResponse, Record, TryFromRecordError};
use dnrs::types::dns;
use dnrs::types::dns::{RecordType, RecordValue};

fn api_record(type_: RecordType, value: &str, ttl: Option<u32>) -> Record {
    Record {
        type_,
        id: "1".to_string(),
        created: "2023-01-01".to_string(),
        modified: "2023-01-01".to_string(),
        zone_id: "zone1".to_string(),
        name: "example.com".to_string(),
        value: value.to_string(),
        ttl,
    }
}

#[test]
fn test_hetzner_record_to_dns_record_a() {
    let api_record = Record {
        type_: RecordType::A,
        id: "1".to_string(),
        created: "2023-01-01".to_string(),
        modified: "2023-01-01".to_string(),
        zone_id: "zone1".to_string(),
        name: "example.com".to_string(),
        value: "1.2.3.4".to_string(),
        ttl: Some(3600),
    };

    let dns_record = dns::Record::try_from(api_record).unwrap();
    assert_eq!(dns_record.domain, "example.com");
    assert_eq!(dns_record.ttl, Some(3600));
    if let RecordValue::A(ip) = dns_record.value {
        assert_eq!(ip.to_string(), "1.2.3.4");
    } else {
        panic!("Expected A record");
    }
}

#[test]
fn test_hetzner_record_to_dns_record_mx() {
    let api_record = Record {
        type_: RecordType::MX,
        id: "2".to_string(),
        created: "2023-01-01".to_string(),
        modified: "2023-01-01".to_string(),
        zone_id: "zone1".to_string(),
        name: "example.com".to_string(),
        value: "10 mail.example.com".to_string(),
        ttl: None,
    };

    let dns_record = dns::Record::try_from(api_record).unwrap();
    if let RecordValue::MX(mx) = dns_record.value {
        assert_eq!(mx.priority, 10);
        assert_eq!(mx.target, "mail.example.com");
    } else {
        panic!("Expected MX record");
    }
}

#[test]
fn hetzner_mx_with_ttl() {
    let dns_record = dns::Record::try_from(api_record(RecordType::MX, "10 mail.example.com", Some(3600))).unwrap();
    assert_eq!(dns_record.ttl, Some(3600));
    match dns_record.value {
        RecordValue::MX(mx) => {
            assert_eq!(mx.priority, 10);
            assert_eq!(mx.target, "mail.example.com");
        }
        _ => panic!("Expected MX record"),
    }
}

#[test]
fn hetzner_passes_ns_and_soa_through() {
    match dns::Record::try_from(api_record(RecordType::NS, "ns1.example.com", None)).unwrap().value {
        RecordValue::NS(s) => assert_eq!(s, "ns1.example.com"),
        _ => panic!("Expected NS record"),
    }
    match dns::Record::try_from(api_record(RecordType::SOA, "a b 1 2 3 4 5", None)).unwrap().value {
        RecordValue::SOA(s) => assert_eq!(s, "a b 1 2 3 4 5"),
        _ => panic!("Expected SOA record"),
    }
}

#[test]
fn hetzner_batch_converts_in_order() {
    let response = GetRecordsResponse {
        records: vec![
            api_record(RecordType::A, "1.2.3.4", Some(1)),
            api_record(RecordType::TXT, "hello world", Some(2)),
            api_record(RecordType::AAAA, "::1", None),
        ],
    };
    let records = Vec::<dns::Record>::try_from(response).unwrap();
    assert_eq!(records.len(), 3);
    assert!(matches!(records[0].value, RecordValue::A(_)));
    assert_eq!(records[0].ttl, Some(1));
    assert!(matches!(&records[1].value, RecordValue::TXT(t) if t == "hello world"));
    assert!(matches!(records[2].value, RecordValue::AAAA(_)));
}

#[test]
fn hetzner_batch_fails_on_the_first_bad_record() {
    let response = GetRecordsResponse {
        records: vec![
            api_record(RecordType::A, "1.2.3.4", None),
            api_record(RecordType::MX, "mail.example.com", None),
            api_record(RecordType::A, "nonsense", None),
        ],
    };
    match Vec::<dns::Record>::try_from(response) {
        Err(TryFromRecordError::InvalidMxFormat(content)) => assert_eq!(content, "mail.example.com"),
        other => panic!("expected the MX failure, got {:?}", other),
    }
}

#[test]
fn hetzner_empty_batch() {
    let records = Vec::<dns::Record>::try_from(GetRecordsResponse { records: vec![] }).unwrap();
    assert!(records.is_empty());
}
