//! The credentials of the configured providers.
use crate::provider::{hetzner, netcup, nitrado};
use vstd::prelude::*;

verus! {

/// The credentials of one provider.
#[derive(Debug, Clone)]
pub enum Provider {
    Nitrado(nitrado::Config),
    Hetzner(hetzner::Config),
    Netcup(netcup::Config),
}

impl Provider {
    /// The name under which this provider is configured.
    pub open spec fn name_view(self) -> Seq<char> {
        match self {
            Provider::Nitrado(c) => c.name@,
            Provider::Hetzner(c) => c.name@,
            Provider::Netcup(c) => c.name@,
        }
    }

    /// The name under which this provider is configured.
    pub fn name(&self) -> (name: &str)
        ensures
            name@ == self.name_view(),
    {
        match self {
            Provider::Nitrado(c) => c.name.as_str(),
            Provider::Hetzner(c) => c.name.as_str(),
            Provider::Netcup(c) => c.name.as_str(),
        }
    }
}

} // verus!
