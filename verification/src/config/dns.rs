//! Which records are kept up to date, provider by provider.
use crate::provider::{hetzner, netcup, nitrado};
use crate::types;
use vstd::prelude::*;

verus! {

/// The records configured for one provider.
#[derive(Debug, Clone)]
pub enum Type {
    Nitrado(nitrado::DnsConfig),
    Hetzner(hetzner::DnsConfig),
    Netcup(netcup::DnsConfig),
}

/// One configured record: written out in full, or computed from the
/// caller's public address.
#[derive(Debug, Clone)]
pub enum RecordConfig {
    Manual(types::dns::Record),
    Automatic(AutomaticRecordConfig),
}

/// A record whose value is the caller's public address of one family.
#[derive(Debug, Clone)]
pub struct AutomaticRecordConfig {
    pub domain: String,
    pub ttl: Option<u32>,
    pub resolve_type: ResolveType,
}

/// The address family of an automatic record.
#[derive(Debug, Clone, Copy, PartialEq, Eq, Structural)]
pub enum ResolveType {
    IPv4,
    IPv6,
}

/// The configured records of all providers.
#[derive(Debug, Clone)]
pub struct Config {
    pub dns: Vec<Type>,
}

impl Default for Config {
    /// The default records: none, for Nitrado and for Hetzner.
    fn default() -> (c: Config)
        ensures
            c.dns@.len() == 2,
            c.dns@[0] matches Type::Nitrado(d) && d.is_default(),
            c.dns@[1] matches Type::Hetzner(d) && d.is_default(),
    {
        let mut dns: Vec<Type> = Vec::new();
        dns.push(Type::Nitrado(nitrado::DnsConfig::default()));
        dns.push(Type::Hetzner(hetzner::DnsConfig::default()));
        Config { dns }
    }
}

} // verus!
