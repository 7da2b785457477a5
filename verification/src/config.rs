//! The configuration that the engine is handed.
use crate::config::provider::Provider;
use crate::provider::{hetzner, netcup, nitrado};
use crate::text::{contains_text, str_contains, str_eq};
use vstd::prelude::*;

pub mod dns;
pub mod provider;
pub mod resolver;

verus! {

/// All that the engine needs to run: the address services, the credentials
/// of the providers and the records to keep.
#[derive(Debug, Clone)]
pub struct Config {
    pub resolver: resolver::Config,
    pub providers: Vec<Provider>,
    pub dns: Vec<dns::Type>,
}

/// Whether `providers` are the three providers with their default
/// credentials: Nitrado, Hetzner and Netcup, in this order.
pub open spec fn default_providers(providers: Seq<Provider>) -> bool {
    &&& providers.len() == 3
    &&& providers[0] matches Provider::Nitrado(c) && c.is_default()
    &&& providers[1] matches Provider::Hetzner(c) && c.is_default()
    &&& providers[2] matches Provider::Netcup(c) && c.is_default()
}

/// Whether `records` are the default records of the three providers:
/// none for Nitrado, for Hetzner and for Netcup, in this order.
pub open spec fn default_records(records: Seq<dns::Type>) -> bool {
    &&& records.len() == 3
    &&& records[0] matches dns::Type::Nitrado(c) && c.is_default()
    &&& records[1] matches dns::Type::Hetzner(c) && c.is_default()
    &&& records[2] matches dns::Type::Netcup(c) && c.is_default()
}

impl Default for Config {
    /// The default configuration: the default address services, and the three
    /// providers with their default credentials and no records.
    fn default() -> (c: Config)
        ensures
            c.resolver.is_default(),
            default_providers(c.providers@),
            default_records(c.dns@),
    {
        let mut providers: Vec<Provider> = Vec::new();
        providers.push(Provider::Nitrado(nitrado::Config::default()));
        providers.push(Provider::Hetzner(hetzner::Config::default()));
        providers.push(Provider::Netcup(netcup::Config::default()));
        let mut dns: Vec<dns::Type> = Vec::new();
        dns.push(dns::Type::Nitrado(nitrado::DnsConfig::default()));
        dns.push(dns::Type::Hetzner(hetzner::DnsConfig::default()));
        dns.push(dns::Type::Netcup(netcup::DnsConfig::default()));
        Config { resolver: resolver::Config::default(), providers, dns }
    }
}

impl Config {
    /// This configuration with `other` laid over it: the address services of
    /// `other`, and the providers and the records of `other` where it has
    /// any, else those of `self`.
    pub fn merge_from(self, other: Config) -> (merged: Config)
        ensures
            merged.resolver == other.resolver,
            merged.providers == (if other.providers@.len() > 0 {
                other.providers
            } else {
                self.providers
            }),
            merged.dns == (if other.dns@.len() > 0 {
                other.dns
            } else {
                self.dns
            }),
    {
        Config {
            resolver: other.resolver,
            providers: if other.providers.len() > 0 {
                other.providers
            } else {
                self.providers
            },
            dns: if other.dns.len() > 0 {
                other.dns
            } else {
                self.dns
            },
        }
    }
}

/// The providers that the engine knows.
#[derive(Debug, Clone, Copy, PartialEq, Eq, Structural)]
pub enum ProviderKind {
    Nitrado,
    Hetzner,
    Netcup,
}

/// Whether a file with the extension `extension` holds configuration.
pub fn is_config_extension(extension: &str) -> (r: bool)
    ensures
        r == (extension@ == "yaml"@ || extension@ == "yml"@),
{
    str_eq(extension, "yaml") || str_eq(extension, "yml")
}

/// The provider whose credentials the file named `file_stem` holds: the
/// file is named after the provider, letter for letter.
pub fn provider_kind(file_stem: &str) -> (kind: Option<ProviderKind>)
    ensures
        kind == (if file_stem@ == "hetzner"@ {
            Some(ProviderKind::Hetzner)
        } else if file_stem@ == "nitrado"@ {
            Some(ProviderKind::Nitrado)
        } else if file_stem@ == "netcup"@ {
            Some(ProviderKind::Netcup)
        } else {
            None
        }),
{
    if str_eq(file_stem, "hetzner") {
        Some(ProviderKind::Hetzner)
    } else if str_eq(file_stem, "nitrado") {
        Some(ProviderKind::Nitrado)
    } else if str_eq(file_stem, "netcup") {
        Some(ProviderKind::Netcup)
    } else {
        None
    }
}

/// The provider whose records the file named `file_stem` holds: the name
/// of the provider stands somewhere in the name of the file. Where several
/// do, Hetzner goes before Nitrado and Nitrado before Netcup.
pub fn dns_kind(file_stem: &str) -> (kind: Option<ProviderKind>)
    ensures
        kind == (if contains_text(file_stem@, "hetzner"@) {
            Some(ProviderKind::Hetzner)
        } else if contains_text(file_stem@, "nitrado"@) {
            Some(ProviderKind::Nitrado)
        } else if contains_text(file_stem@, "netcup"@) {
            Some(ProviderKind::Netcup)
        } else {
            None
        }),
{
    if str_contains(file_stem, "hetzner") {
        Some(ProviderKind::Hetzner)
    } else if str_contains(file_stem, "nitrado") {
        Some(ProviderKind::Nitrado)
    } else if str_contains(file_stem, "netcup") {
        Some(ProviderKind::Netcup)
    } else {
        None
    }
}

impl Config {
    /// The providers to go on with after the directory of provider files
    /// was read: those found there, or, where none was found, Nitrado and
    /// Hetzner with their default credentials.
    pub fn load_provider_configs(found: Vec<Provider>) -> (providers: Vec<Provider>)
        ensures
            found@.len() > 0 ==> providers == found,
            found@.len() == 0 ==> providers@.len() == 2 && (
            providers@[0] matches Provider::Nitrado(c) && c.is_default()) && (
            providers@[1] matches Provider::Hetzner(c) && c.is_default()),
    {
        if found.len() > 0 {
            return found;
        }
        let mut providers = found;
        providers.push(Provider::Nitrado(nitrado::Config::default()));
        providers.push(Provider::Hetzner(hetzner::Config::default()));
        providers
    }

    /// The configuration read from a directory: the default configuration
    /// with what was read laid over it.
    pub fn load_from_directory(
        resolver: resolver::Config,
        providers: Vec<Provider>,
        dns: Vec<dns::Type>,
    ) -> (config: Config)
        ensures
            config.resolver == resolver,
            providers@.len() > 0 ==> config.providers == providers,
            providers@.len() == 0 ==> default_providers(config.providers@),
            dns@.len() > 0 ==> config.dns == dns,
            dns@.len() == 0 ==> default_records(config.dns@),
    {
        let loaded = Config { resolver, providers, dns };
        Config::default().merge_from(loaded)
    }
}

} // verus!
