use dnrs::config::dns::Type;
use dnrs::config::provider::Provider;
use dnrs::config::resolver::{self, IpResolver, IpResolverType};
use dnrs::config::{self, dns_kind, is_config_extension, provider_kind, Config, ProviderKind};
use dnrs::provider::{hetzner, netcup, nitrado};

#[test]
fn test_config_merge_from_empty() {
    let default_config = Config::default();
    let other = Config {
        resolver: resolver::Config {
            ipv4: IpResolver {
                url: "https://new.ipv4.com".to_string(),
                type_: IpResolverType::Raw,
            },
            ipv6: IpResolver {
                url: "https://new.ipv6.com".to_string(),
                type_: IpResolverType::Raw,
            },
        },
        providers: vec![],
        dns: vec![],
    };

    let merged = default_config.clone().merge_from(other.clone());

    assert_eq!(merged.resolver.ipv4.url, "https://new.ipv4.com");
    assert_eq!(merged.providers.len(), default_config.providers.len());
    assert_eq!(merged.dns.len(), default_config.dns.len());
}

#[test]
fn test_config_merge_from_not_empty() {
    let default_config = Config::default();
    let other = Config {
        resolver: resolver::Config::default(),
        providers: vec![Provider::Nitrado(nitrado::Config {
            name: "OtherNitrado".to_string(),
            ..Default::default()
        })],
        dns: vec![],
    };

    let merged = default_config.clone().merge_from(other.clone());

    assert_eq!(merged.providers.len(), 1);
    if let Provider::Nitrado(config) = &merged.providers[0] {
        assert_eq!(config.name, "OtherNitrado");
    } else {
        panic!("Expected Nitrado provider");
    }
    assert_eq!(merged.dns.len(), default_config.dns.len());
}

#[test]
fn test_config_default() {
    let config = Config::default();
    assert!(!config.providers.is_empty());
    assert!(!config.dns.is_empty());
}

#[test]
fn default_configuration_in_full() {
    let config = Config::default();
    assert_eq!(config.resolver.ipv4.url, "https://ip.cancom.io");
    assert_eq!(config.resolver.ipv6.url, "https://ipv6.cancom.io");
    assert!(matches!(config.resolver.ipv4.type_, IpResolverType::Raw));
    assert!(matches!(config.resolver.ipv6.type_, IpResolverType::Raw));
    assert_eq!(config.providers.len(), 3);
    match &config.providers[0] {
        Provider::Nitrado(c) => {
            assert_eq!(c.name, "Nitrado1");
            assert_eq!(c.api_key, "your_api_key");
            assert_eq!(c.api_base_url, "https://api.nitrado.net");
        }
        _ => panic!("Expected Nitrado provider"),
    }
    match &config.providers[1] {
        Provider::Hetzner(c) => {
            assert_eq!(c.name, "Hetzner1");
            assert_eq!(c.api_key, "your_api_key");
            assert_eq!(c.api_base_url, "https://dns.hetzner.com/api/v1");
        }
        _ => panic!("Expected Hetzner provider"),
    }
    match &config.providers[2] {
        Provider::Netcup(c) => {
            assert_eq!(c.name, "Netcup1");
            assert_eq!(c.customer_number, 0);
            assert_eq!(c.api_key, "your_api_key");
            assert_eq!(c.api_password, "your_api_password");
            assert_eq!(c.api_base_url, "https://ccp.netcup.net/run/webservice/servers/endpoint.php");
        }
        _ => panic!("Expected Netcup provider"),
    }
    assert_eq!(config.providers[2].name(), "Netcup1");
    assert_eq!(config.dns.len(), 3);
    assert!(matches!(&config.dns[0], Type::Nitrado(d) if d.provider_name == "Nitrado1" && d.domains.is_empty()));
    assert!(matches!(&config.dns[1], Type::Hetzner(d) if d.provider_name == "Hetzner1" && d.domains.is_empty()));
    assert!(matches!(&config.dns[2], Type::Netcup(d) if d.provider_name == "Netcup1" && d.domains.is_empty()));
    let dns = config::dns::Config::default();
    assert_eq!(dns.dns.len(), 2);
    assert!(matches!(&dns.dns[0], Type::Nitrado(_)));
    assert!(matches!(&dns.dns[1], Type::Hetzner(_)));
}

#[test]
fn merge_takes_the_records_of_the_other() {
    let other = Config {
        resolver: resolver::Config::default(),
        providers: vec![],
        dns: vec![Type::Netcup(netcup::DnsConfig::default())],
    };
    let merged = Config::default().merge_from(other);
    assert_eq!(merged.providers.len(), 3);
    assert_eq!(merged.dns.len(), 1);
    assert!(matches!(&merged.dns[0], Type::Netcup(_)));
}

#[test]
fn files_are_told_apart_by_their_names() {
    assert!(is_config_extension("yaml"));
    assert!(is_config_extension("yml"));
    assert!(!is_config_extension("YAML"));
    assert!(!is_config_extension("json"));
    assert!(!is_config_extension(""));
    assert_eq!(provider_kind("hetzner"), Some(ProviderKind::Hetzner));
    assert_eq!(provider_kind("nitrado"), Some(ProviderKind::Nitrado));
    assert_eq!(provider_kind("netcup"), Some(ProviderKind::Netcup));
    assert_eq!(provider_kind("hetzner-domains"), None);
    assert_eq!(provider_kind("unknown"), None);
    assert_eq!(dns_kind("hetzner-domains"), Some(ProviderKind::Hetzner));
    assert_eq!(dns_kind("my-nitrado"), Some(ProviderKind::Nitrado));
    assert_eq!(dns_kind("netcup"), Some(ProviderKind::Netcup));
    assert_eq!(dns_kind("netcup-and-hetzner"), Some(ProviderKind::Hetzner));
    assert_eq!(dns_kind("netcup-nitrado"), Some(ProviderKind::Nitrado));
    assert_eq!(dns_kind("unknown"), None);
    assert_eq!(dns_kind("Hetzner"), None);
}

#[test]
fn providers_found_or_defaults() {
    let defaults = Config::load_provider_configs(vec![]);
    assert_eq!(defaults.len(), 2);
    assert!(matches!(&defaults[0], Provider::Nitrado(c) if c.name == "Nitrado1"));
    assert!(matches!(&defaults[1], Provider::Hetzner(c) if c.name == "Hetzner1"));
    let found = Config::load_provider_configs(vec![Provider::Netcup(netcup::Config::default())]);
    assert_eq!(found.len(), 1);
    assert!(matches!(&found[0], Provider::Netcup(_)));
}

#[test]
fn configuration_read_from_a_directory() {
    let config = Config::load_from_directory(
        resolver::Config::default(),
        vec![
            Provider::Hetzner(hetzner::Config::default()),
            Provider::Nitrado(nitrado::Config::default()),
            Provider::Netcup(netcup::Config::default()),
        ],
        vec![
            Type::Hetzner(hetzner::DnsConfig::default()),
            Type::Nitrado(nitrado::DnsConfig::default()),
            Type::Netcup(netcup::DnsConfig::default()),
        ],
    );
    assert_eq!(config.providers.len(), 3);
    assert_eq!(config.dns.len(), 3);
    assert!(matches!(&config.providers[0], Provider::Hetzner(_)));
    let config = Config::load_from_directory(resolver::Config::default(), vec![], vec![]);
    assert!(!config.providers.is_empty());
    assert_eq!(config.dns.len(), 3);
}

#[test]
fn constants_of_the_program() {
    assert_eq!(dnrs::TOKEN, "nope");
    assert_eq!(dnrs::PROGRAM_NAME, "dnrs");
    assert_eq!(dnrs::PROGRAM_VERSION, "0.1.0");
}
