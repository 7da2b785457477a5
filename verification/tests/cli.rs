use dnrs::cli::auto::{AutoCommand, AutoError, Resolved};
use dnrs::cli::generate_config::GenerateConfigCommand;
use dnrs::cli::get::{get_provider, GetCommand, GetError, Selection, SubdomainArgs};
use dnrs::provider::ConfiguredProvider;
use dnrs::config::provider::Provider;
use dnrs::config::Config;
use dnrs::provider::nitrado;
use dnrs::resolver::IpResolverError;
use dnrs::types::ip::{AddrParseError, Ipv4Addr, Ipv6Addr};

fn v4() -> Ipv4Addr {
    Ipv4Addr::new(203, 0, 113, 7)
}

fn v6() -> Ipv6Addr {
    Ipv6Addr::new(0x2001, 0xdb8, 0, 0, 0, 0, 0, 1)
}

#[test]
fn both_addresses_resolved() {
    match (AutoCommand {}).combine(Ok(v4()), Ok(v6())) {
        Ok(Resolved::Both(a, b)) => {
            assert_eq!(a, v4());
            assert_eq!(b, v6());
        }
        other => panic!("expected both addresses, got {:?}", other),
    }
}

#[test]
fn ipv4_alone_goes_on_with_a_warning() {
    match (AutoCommand {}).combine(Ok(v4()), Err(IpResolverError::InvalidIpFormat(AddrParseError::Ipv6))) {
        Ok(Resolved::Ipv4Only(a, warning)) => {
            assert_eq!(a, v4());
            assert!(matches!(warning, IpResolverError::InvalidIpFormat(AddrParseError::Ipv6)));
        }
        other => panic!("expected the IPv4 address alone, got {:?}", other),
    }
}

#[test]
fn ipv6_alone_goes_on_with_a_warning() {
    match (AutoCommand {}).combine(Err(IpResolverError::InvalidIpFormat(AddrParseError::Ipv4)), Ok(v6())) {
        Ok(Resolved::Ipv6Only(b, warning)) => {
            assert_eq!(b, v6());
            assert!(matches!(warning, IpResolverError::InvalidIpFormat(AddrParseError::Ipv4)));
        }
        other => panic!("expected the IPv6 address alone, got {:?}", other),
    }
}

#[test]
fn no_address_fails_with_both_failures() {
    match (AutoCommand {}).combine(
        Err(IpResolverError::InvalidIpFormat(AddrParseError::Ipv4)),
        Err(IpResolverError::InvalidIpFormat(AddrParseError::Ipv6)),
    ) {
        Err(AutoError::ResolveIp(first, second)) => {
            assert!(matches!(first, IpResolverError::InvalidIpFormat(AddrParseError::Ipv4)));
            assert!(matches!(second, IpResolverError::InvalidIpFormat(AddrParseError::Ipv6)));
        }
        other => panic!("expected a failure, got {:?}", other),
    }
}

#[test]
fn example_configuration_is_written_unless_present() {
    let plain = GenerateConfigCommand { output: "config".to_string(), force: false };
    let forced = GenerateConfigCommand { output: "config".to_string(), force: true };
    assert!(plain.should_write(false));
    assert!(!plain.should_write(true));
    assert!(forced.should_write(false));
    assert!(forced.should_write(true));
}

fn get(provider: &str, subdomains: &[&str], all: bool) -> GetCommand {
    GetCommand {
        provider: provider.to_string(),
        domain: "example.com".to_string(),
        subdomain_args: SubdomainArgs { subdomains: subdomains.iter().map(|s| s.to_string()).collect(), all },
    }
}

#[test]
fn get_needs_all_or_names_but_not_both() {
    let config = Config::default();
    match get("Nitrado1", &["a"], true).plan(&config) {
        Err(GetError::ProviderError(reason)) => {
            assert_eq!(reason, "Cannot specify both --all and specific subdomains")
        }
        _ => panic!("expected a refusal"),
    }
    match get("Nitrado1", &[], false).plan(&config) {
        Err(GetError::ProviderError(reason)) => {
            assert_eq!(reason, "Must specify either --all or specific subdomains")
        }
        _ => panic!("expected a refusal"),
    }
    match get("nobody", &["a"], true).plan(&config) {
        Err(GetError::ProviderError(_)) => (),
        _ => panic!("expected a refusal"),
    }
}

#[test]
fn get_needs_a_configured_provider() {
    let config = Config::default();
    match get("nobody", &[], true).plan(&config) {
        Err(GetError::ProviderNotConfigured(name)) => assert_eq!(name, "nobody"),
        _ => panic!("expected an unknown provider"),
    }
    match get("nitrado1", &["a"], false).plan(&config) {
        Err(GetError::ProviderNotConfigured(name)) => assert_eq!(name, "nitrado1"),
        _ => panic!("expected an unknown provider"),
    }
}

#[test]
fn get_plans() {
    let config = Config::default();
    match get("Hetzner1", &[], true).plan(&config) {
        Ok(plan) => {
            assert!(matches!(plan.provider, ConfiguredProvider::Hetzner(p) if p.provider_config.name == "Hetzner1"));
            assert!(matches!(plan.selection, Selection::All(input) if input.domain == "example.com"));
        }
        _ => panic!("expected a plan"),
    }
    match get("Nitrado1", &["a.example.com", "b.example.com"], false).plan(&config) {
        Ok(plan) => {
            assert!(matches!(plan.provider, ConfiguredProvider::Nitrado(_)));
            match plan.selection {
                Selection::Named(input) => {
                    assert_eq!(input.domain, "example.com");
                    assert_eq!(input.subdomains, vec!["a.example.com", "b.example.com"]);
                }
                _ => panic!("expected named records"),
            }
        }
        _ => panic!("expected a plan"),
    }
}

#[test]
fn the_first_provider_of_a_name_is_taken() {
    let mut config = Config::default();
    config.providers.insert(
        0,
        Provider::Nitrado(nitrado::Config {
            name: "Netcup1".to_string(),
            api_key: "first".to_string(),
            api_base_url: "https://example.com".to_string(),
        }),
    );
    assert!(matches!(
        get_provider("Netcup1", &config),
        Some(ConfiguredProvider::Nitrado(p)) if p.provider_config.api_key == "first"
    ));
    assert!(matches!(get_provider("Hetzner1", &config), Some(ConfiguredProvider::Hetzner(_))));
    assert!(get_provider("", &config).is_none());
    config.providers.remove(0);
    assert!(matches!(get_provider("Netcup1", &config), Some(ConfiguredProvider::Netcup(_))));
}
