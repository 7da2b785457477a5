//! Where and how the caller's public addresses are looked up.
use vstd::prelude::*;

verus! {

/// How the answer of an address service is read.
#[derive(Debug, Clone)]
pub enum IpResolverType {
    /// The answer is the address itself.
    Raw,
    /// The answer is a JSON document; the address stands at the given
    /// dot-separated path.
    JSON(String),
}

/// One address service.
#[derive(Debug, Clone)]
pub struct IpResolver {
    pub url: String,
    pub type_: IpResolverType,
}

/// The address services, one for each family.
#[derive(Debug, Clone)]
pub struct Config {
    pub ipv4: IpResolver,
    pub ipv6: IpResolver,
}

impl Config {
    /// Whether this configuration is the default one.
    pub open spec fn is_default(self) -> bool {
        &&& self.ipv4.url@ == "https://ip.cancom.io"@
        &&& self.ipv4.type_ is Raw
        &&& self.ipv6.url@ == "https://ipv6.cancom.io"@
        &&& self.ipv6.type_ is Raw
    }
}

impl Default for Config {
    /// The default address services, which answer with the address itself.
    fn default() -> (c: Config)
        ensures
            c.is_default(),
    {
        Config {
            ipv4: IpResolver { url: "https://ip.cancom.io".to_string(), type_: IpResolverType::Raw },
            ipv6: IpResolver {
                url: "https://ipv6.cancom.io".to_string(),
                type_: IpResolverType::Raw,
            },
        }
    }
}

} // verus!
