use dnrs::provider::nitrado::model::{Record, RecordMode, TryFromRecordError};
use dnrs::types::dns;
use dnrs::types::dns::{RecordType, RecordValue};

fn api_record(type_: RecordType, content: &str, name: &str) -> Record {
    Record {
        type_,
        content: content.to_string(),
        name: name.to_string(),
        mode: RecordMode::Manual,
    }
}

#[test]
fn test_nitrado_record_to_dns_record_a() {
    let api_record = api_record(RecordType::A, "1.2.3.4", "example.com");
    let dns_record = dns::Record::try_from(api_record).unwrap();
    assert_eq!(dns_record.domain, "example.com");
    match dns_record.value {
        RecordValue::A(ip) => assert_eq!(ip.to_string(), "1.2.3.4"),
        _ => panic!("Expected A record"),
    }
}

#[test]
fn test_nitrado_record_to_dns_record_aaaa() {
    let api_record = api_record(RecordType::AAAA, "::1", "example.com");
    let dns_record = dns::Record::try_from(api_record).unwrap();
    match dns_record.value {
        RecordValue::AAAA(ip) => assert_eq!(ip.to_string(), "::1"),
        _ => panic!("Expected AAAA record"),
    }
}

#[test]
fn test_nitrado_record_to_dns_record_mx() {
    let api_record = api_record(RecordType::MX, "10 mail.example.com", "example.com");
    let dns_record = dns::Record::try_from(api_record).unwrap();
    match dns_record.value {
        RecordValue::MX(mx) => {
            assert_eq!(mx.priority, 10);
            assert_eq!(mx.target, "mail.example.com");
        }
        _ => panic!("Expected MX record"),
    }
}

#[test]
fn test_nitrado_record_to_dns_record_srv() {
    let api_record = api_record(
        RecordType::SRV,
        "0 5 5060 sip.example.com",
        "_sip._tcp.example.com",
    );
    let dns_record = dns::Record::try_from(api_record).unwrap();
    match dns_record.value {
        RecordValue::SRV(priority, weight, port, target) => {
            assert_eq!(priority, 0);
            assert_eq!(weight, 5);
            assert_eq!(port, 5060);
            assert_eq!(target, "sip.example.com");
        }
        _ => panic!("Expected SRV record"),
    }
}

#[test]
fn test_nitrado_record_to_dns_record_invalid_ip() {
    let api_record = api_record(RecordType::A, "invalid", "example.com");
    let result = dns::Record::try_from(api_record);
    assert!(result.is_err());
}

#[test]
fn test_nitrado_record_to_dns_record_unsupported() {
    let api_record = api_record(RecordType::NS, "ns1.example.com", "example.com");
    let result = dns::Record::try_from(api_record);
    assert!(matches!(
        result,
        Err(TryFromRecordError::UnsupportedRecordType(RecordType::NS))
    ));
}
