//! The configuration of the Nitrado adapter.
use crate::config::dns::RecordConfig;
use vstd::prelude::*;

verus! {

/// The credentials of a Nitrado account and the address of the API.
#[derive(Debug, Clone)]
pub struct Config {
    pub name: String,
    pub api_key: String,
    pub api_base_url: String,
}

impl Config {
    /// Whether this configuration is the default one.
    pub open spec fn is_default(self) -> bool {
        &&& self.name@ == "Nitrado1"@
        &&& self.api_key@ == "your_api_key"@
        &&& self.api_base_url@ == "https://api.nitrado.net"@
    }
}

impl Default for Config {
    /// Placeholder credentials for the public address of the API.
    fn default() -> (c: Config)
        ensures
            c.is_default(),
    {
        Config {
            name: "Nitrado1".to_string(),
            api_key: "your_api_key".to_string(),
            api_base_url: "https://api.nitrado.net".to_string(),
        }
    }
}

/// The records configured for one domain.
#[derive(Debug, Clone)]
pub struct DomainConfig {
    pub domain: String,
    pub records: Vec<RecordConfig>,
}

/// The domains kept at the provider configured under `provider_name`.
#[derive(Debug, Clone)]
pub struct DnsConfig {
    pub provider_name: String,
    pub domains: Vec<DomainConfig>,
}

impl DnsConfig {
    /// Whether this configuration is the default one.
    pub open spec fn is_default(self) -> bool {
        &&& self.provider_name@ == "Nitrado1"@
        &&& self.domains@.len() == 0
    }
}

impl Default for DnsConfig {
    /// No domains, at the provider of the default name.
    fn default() -> (c: DnsConfig)
        ensures
            c.is_default(),
    {
        DnsConfig { provider_name: "Nitrado1".to_string(), domains: Vec::new() }
    }
}

} // verus!
