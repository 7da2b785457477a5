use dnrs::cli::get::get_provider;
use dnrs::config::Config;
use dnrs::provider::hetzner::{self, HetznerProvider};
use dnrs::provider::netcup::{self, NetcupProvider};
use dnrs::provider::nitrado::{self, NitradoProvider};
use dnrs::provider::{
    filter_records, ConfiguredProvider, is_requested, status_is_success, Feature, GetAllRecordsInput,
    GetRecordsInput, Provider, Request, Unimplemented,
};
use dnrs::types::dns::{Record, RecordValue};
use dnrs::types::ip::Ipv4Addr;

struct MockProvider {
    name: &'static str,
    records: Vec<Record>,
}

impl Provider for MockProvider {
    fn get_provider_name(&self) -> &'static str {
        self.name
    }

    fn get_supported_features(&self) -> Vec<Feature> {
        vec![Feature::GetRecords, Feature::GetAllRecords]
    }

    fn all_records_request(&self, _input: &GetAllRecordsInput) -> Result<Request, Unimplemented> {
        Err(Unimplemented(Feature::GetAllRecords))
    }

    fn add_record(&self, _record: &Record) -> Result<Request, Unimplemented> {
        Err(Unimplemented(Feature::AddRecord))
    }

    fn update_record(&self, _record: &Record) -> Result<Request, Unimplemented> {
        Err(Unimplemented(Feature::UpdateRecord))
    }

    fn delete_record(&self, _record: &Record) -> Result<Request, Unimplemented> {
        Err(Unimplemented(Feature::DeleteRecord))
    }
}

fn a_record(domain: &str, last: u8) -> Record {
    Record {
        domain: domain.to_string(),
        value: RecordValue::A(Ipv4Addr::new(last, last, last, last)),
        ttl: None,
    }
}

#[test]
fn test_provider_generic_get_records() {
    let records = vec![
        a_record("a.example.com", 1),
        a_record("b.example.com", 2),
        a_record("c.example.com", 3),
    ];

    let provider = MockProvider { name: "Mock", records };

    let input = GetRecordsInput {
        domain: "example.com",
        subdomains: vec!["a.example.com", "c.example.com"],
    };

    let filtered = provider.get_records(&input, provider.records.clone());

    assert_eq!(filtered.len(), 2);
    assert_eq!(filtered[0].domain, "a.example.com");
    assert_eq!(filtered[1].domain, "c.example.com");
}

#[test]
fn test_provider_is_feature_supported() {
    let provider = MockProvider { name: "Mock", records: vec![] };

    assert!(provider.is_feature_supported(&Feature::GetRecords));
    assert!(provider.is_feature_supported(&Feature::GetAllRecords));
    assert!(!provider.is_feature_supported(&Feature::AddRecord));
    assert_eq!(provider.get_provider_name(), "Mock");
}

#[test]
fn filter_keeps_order_and_duplicates() {
    let records = vec![
        a_record("b.example.com", 1),
        a_record("a.example.com", 2),
        a_record("b.example.com", 3),
        a_record("sub.a.example.com", 4),
        a_record("A.example.com", 5),
        a_record("a.example.com", 6),
    ];
    let kept = filter_records(records, &vec!["a.example.com", "b.example.com", "a.example.com"]);
    let seen: Vec<(String, [u8; 4])> = kept
        .iter()
        .map(|r| match r.value {
            RecordValue::A(ip) => (r.domain.clone(), ip.octets()),
            _ => panic!("Expected A record"),
        })
        .collect();
    assert_eq!(
        seen,
        vec![
            ("b.example.com".to_string(), [1; 4]),
            ("a.example.com".to_string(), [2; 4]),
            ("b.example.com".to_string(), [3; 4]),
            ("a.example.com".to_string(), [6; 4]),
        ]
    );
}

#[test]
fn filter_edge_cases() {
    assert!(filter_records(vec![], &vec!["a"]).is_empty());
    assert!(filter_records(vec![a_record("a", 1)], &vec![]).is_empty());
    assert!(filter_records(vec![a_record("example.com", 1)], &vec!["com", "example", "xample.com"]).is_empty());
    assert!(is_requested(&vec!["x", ""], ""));
    assert!(!is_requested(&vec!["x"], "xx"));
}

#[test]
fn success_is_200_to_299() {
    for status in 0..=u16::MAX {
        assert_eq!(status_is_success(status), (200..300).contains(&status));
    }
}

#[test]
fn adapters_name_themselves_and_their_features() {
    let config = Config::default();
    let all = vec![
        Feature::GetRecords,
        Feature::GetAllRecords,
        Feature::AddRecord,
        Feature::UpdateRecord,
        Feature::DeleteRecord,
    ];
    let n = nitrado::Config::default();
    let h = hetzner::Config::default();
    let c = netcup::Config::default();
    let nitrado = NitradoProvider::new(&n);
    let hetzner = HetznerProvider::new(&h);
    let netcup = NetcupProvider::new(&c);
    assert_eq!(nitrado.get_provider_name(), "Nitrado");
    assert_eq!(hetzner.get_provider_name(), "Hetzner");
    assert_eq!(netcup.get_provider_name(), "Netcup");
    assert_eq!(nitrado.get_supported_features(), all);
    assert_eq!(hetzner.get_supported_features(), all);
    assert_eq!(netcup.get_supported_features(), all);
    assert!(netcup.is_feature_supported(&Feature::DeleteRecord));
    assert_eq!(config.providers.len(), 3);
}

#[test]
fn nitrado_request() {
    let config = nitrado::Config {
        name: "n".to_string(),
        api_key: "SECRET".to_string(),
        api_base_url: "https://api.nitrado.net".to_string(),
    };
    let provider = NitradoProvider::new(&config);
    let request = provider.records_request(&GetAllRecordsInput { domain: "example.com" });
    assert_eq!(request.url, "https://api.nitrado.net/domain/example.com/records");
    assert_eq!(request.header_name, "Authorization");
    assert_eq!(request.header_value, "Bearer SECRET");
    let first = provider.all_records_request(&GetAllRecordsInput { domain: "example.com" }).unwrap();
    assert_eq!(first.url, request.url);
}

#[test]
fn hetzner_requests() {
    let config = hetzner::Config {
        name: "h".to_string(),
        api_key: "TOKEN".to_string(),
        api_base_url: "https://dns.hetzner.com/api/v1".to_string(),
    };
    let provider = HetznerProvider::new(&config);
    let zones = provider.zones_request();
    assert_eq!(zones.url, "https://dns.hetzner.com/api/v1/zones");
    assert_eq!(zones.header_name, "Auth-API-Token");
    assert_eq!(zones.header_value, "TOKEN");
    let records = provider.records_request("zone1");
    assert_eq!(records.url, "https://dns.hetzner.com/api/v1/records?zone_id=zone1");
    assert_eq!(records.header_name, "Auth-API-Token");
    assert_eq!(records.header_value, "TOKEN");
    let first = provider.all_records_request(&GetAllRecordsInput { domain: "example.com" }).unwrap();
    assert_eq!(first.url, zones.url);
}

#[test]
fn hetzner_zone_lookup() {
    let config = hetzner::Config::default();
    let provider = HetznerProvider::new(&config);
    let body = r#"{"zones": [
        {"id": "z0", "name": "other.com"},
        {"id": 7, "name": "example.com"},
        {"name": "example.com"},
        {"id": "z1", "name": "example.com"},
        {"id": "z2", "name": "example.com"}
    ]}"#;
    assert_eq!(provider.get_zone_id(body, "example.com").unwrap(), "z1");
    assert_eq!(provider.get_zone_id(body, "other.com").unwrap(), "z0");
    match provider.get_zone_id(body, "missing.com") {
        Err(hetzner::HetznerError::DomainNotFound(domain)) => assert_eq!(domain, "missing.com"),
        other => panic!("expected a missing zone, got {:?}", other),
    }
    assert!(matches!(
        provider.get_zone_id(body, "Example.com"),
        Err(hetzner::HetznerError::DomainNotFound(_))
    ));
    assert!(matches!(
        provider.get_zone_id(r#"{"zones": {"id": "z1", "name": "example.com"}}"#, "example.com"),
        Err(hetzner::HetznerError::DomainNotFound(_))
    ));
    assert!(matches!(
        provider.get_zone_id(r#"{"records": []}"#, "example.com"),
        Err(hetzner::HetznerError::DomainNotFound(_))
    ));
    assert!(matches!(
        provider.get_zone_id("not json", "example.com"),
        Err(hetzner::HetznerError::Json(_))
    ));
}

#[test]
fn unimplemented_operations() {
    let n = nitrado::Config::default();
    let h = hetzner::Config::default();
    let c = netcup::Config::default();
    let record = a_record("a.example.com", 1);
    let nitrado = NitradoProvider::new(&n);
    let hetzner = HetznerProvider::new(&h);
    let netcup = NetcupProvider::new(&c);
    assert_eq!(nitrado.add_record(&record).unwrap_err(), Unimplemented(Feature::AddRecord));
    assert_eq!(nitrado.update_record(&record).unwrap_err(), Unimplemented(Feature::UpdateRecord));
    assert_eq!(nitrado.delete_record(&record).unwrap_err(), Unimplemented(Feature::DeleteRecord));
    assert_eq!(hetzner.add_record(&record).unwrap_err(), Unimplemented(Feature::AddRecord));
    assert_eq!(hetzner.update_record(&record).unwrap_err(), Unimplemented(Feature::UpdateRecord));
    assert_eq!(hetzner.delete_record(&record).unwrap_err(), Unimplemented(Feature::DeleteRecord));
    assert_eq!(netcup.add_record(&record).unwrap_err(), Unimplemented(Feature::AddRecord));
    assert_eq!(netcup.update_record(&record).unwrap_err(), Unimplemented(Feature::UpdateRecord));
    assert_eq!(netcup.delete_record(&record).unwrap_err(), Unimplemented(Feature::DeleteRecord));
    assert_eq!(
        netcup.all_records_request(&GetAllRecordsInput { domain: "example.com" }).unwrap_err(),
        Unimplemented(Feature::GetAllRecords)
    );
}

#[test]
fn all_records_input_from_records_input() {
    let input = GetRecordsInput { domain: "example.com", subdomains: vec!["a"] };
    assert_eq!(GetAllRecordsInput::from(&input).domain, "example.com");
    assert_eq!(GetAllRecordsInput::from(input).domain, "example.com");
}

fn answer(status: u16) -> reqwest::Response {
    let mut answer = http::Response::new("body");
    *answer.status_mut() = http::StatusCode::from_u16(status).unwrap();
    reqwest::Response::from(answer)
}

#[test]
fn answers_are_let_through_on_success() {
    for status in [200, 201, 204, 299] {
        assert_eq!(nitrado::accept(answer(status)).unwrap().status().as_u16(), status);
        assert_eq!(hetzner::accept(answer(status)).unwrap().status().as_u16(), status);
        assert_eq!(netcup::accept(answer(status)).unwrap().status().as_u16(), status);
    }
}

#[test]
fn answers_are_refused_with_their_status() {
    for status in [100, 199, 300, 301, 400, 401, 404, 500, 503, 999] {
        match nitrado::accept(answer(status)) {
            Err(nitrado::NitradoError::Unsuccessful(code, kept)) => {
                assert_eq!(code, status);
                assert_eq!(kept.status().as_u16(), status);
            }
            other => panic!("expected a refusal, got {:?}", other),
        }
        assert!(matches!(
            hetzner::accept(answer(status)),
            Err(hetzner::HetznerError::Unsuccessful(code, _)) if code == status
        ));
        assert!(matches!(
            netcup::accept(answer(status)),
            Err(netcup::NetcupError::Unsuccessful(code, _)) if code == status
        ));
    }
}

#[test]
fn the_status_handed_in_decides() {
    assert!(nitrado::accept_status(200, answer(500)).is_ok());
    assert!(matches!(
        nitrado::accept_status(404, answer(200)),
        Err(nitrado::NitradoError::Unsuccessful(404, _))
    ));
    assert!(matches!(
        hetzner::accept_status(199, answer(200)),
        Err(hetzner::HetznerError::Unsuccessful(199, _))
    ));
    assert!(matches!(
        netcup::accept_status(300, answer(200)),
        Err(netcup::NetcupError::Unsuccessful(300, _))
    ));
}

#[test]
fn a_configured_provider_speaks_for_its_adapter() {
    let config = Config::default();
    let record = a_record("a.example.com", 1);
    let input = GetAllRecordsInput { domain: "example.com" };
    for (name, display) in [("Nitrado1", "Nitrado"), ("Hetzner1", "Hetzner"), ("Netcup1", "Netcup")] {
        let provider = get_provider(name, &config).unwrap();
        assert_eq!(provider.get_provider_name(), display);
        assert_eq!(provider.get_supported_features().len(), 5);
        assert!(provider.is_feature_supported(&Feature::GetRecords));
        assert_eq!(provider.add_record(&record).unwrap_err(), Unimplemented(Feature::AddRecord));
        assert_eq!(provider.update_record(&record).unwrap_err(), Unimplemented(Feature::UpdateRecord));
        assert_eq!(provider.delete_record(&record).unwrap_err(), Unimplemented(Feature::DeleteRecord));
        match &provider {
            ConfiguredProvider::Nitrado(_) => {
                let request = provider.all_records_request(&input).unwrap();
                assert_eq!(request.url, "https://api.nitrado.net/domain/example.com/records");
                assert_eq!(request.header_name, "Authorization");
                assert_eq!(request.header_value, "Bearer your_api_key");
            }
            ConfiguredProvider::Hetzner(_) => {
                let request = provider.all_records_request(&input).unwrap();
                assert_eq!(request.url, "https://dns.hetzner.com/api/v1/zones");
                assert_eq!(request.header_name, "Auth-API-Token");
                assert_eq!(request.header_value, "your_api_key");
            }
            ConfiguredProvider::Netcup(_) => assert_eq!(
                provider.all_records_request(&input).unwrap_err(),
                Unimplemented(Feature::GetAllRecords)
            ),
        }
        let kept = provider.get_records(
            &GetRecordsInput { domain: "example.com", subdomains: vec!["a.example.com"] },
            vec![a_record("b.example.com", 2), a_record("a.example.com", 1)],
        );
        assert_eq!(kept.len(), 1);
        assert_eq!(kept[0].domain, "a.example.com");
    }
}
