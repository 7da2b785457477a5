//! The `get` command: fetch records from a provider.
use crate::config::provider::Provider as ProviderConfig;
use crate::config::Config;
use crate::provider::hetzner::HetznerProvider;
use crate::provider::netcup::NetcupProvider;
use crate::provider::nitrado::NitradoProvider;
use crate::provider::{ConfiguredProvider, GetAllRecordsInput, GetRecordsInput};
use crate::text::{str_eq, views};
use vstd::prelude::*;

verus! {

/// Which records of the domain are asked for.
#[derive(Debug)]
pub struct SubdomainArgs {
    /// Subdomains to get records for.
    pub subdomains: Vec<String>,
    /// Get all records.
    pub all: bool,
}

/// Get one or more DNS records from a provider.
#[derive(Debug)]
pub struct GetCommand {
    /// Name of the provider to get records from.
    pub provider: String,
    /// Domain to get records for.
    pub domain: String,
    pub subdomain_args: SubdomainArgs,
}

/// Why the `get` command failed.
#[derive(Debug)]
pub enum GetError {
    /// The given provider is not configured.
    ProviderNotConfigured(String),
    /// The command cannot be carried out; the reason in words.
    ProviderError(String),
}

/// The records to fetch.
pub enum Selection<'input> {
    All(GetAllRecordsInput<'input>),
    Named(GetRecordsInput<'input>),
}

/// What the `get` command does: the provider to ask, and for which records.
pub struct Plan<'input> {
    pub provider: ConfiguredProvider<'input>,
    pub selection: Selection<'input>,
}

/// The index of the first of `providers` that is configured under `name`, or
/// their number where there is none.
pub open spec fn provider_index(providers: Seq<ProviderConfig>, name: Seq<char>) -> int
    decreases providers.len(),
{
    if providers.len() == 0 || providers[0].name_view() == name {
        0
    } else {
        1 + provider_index(providers.skip(1), name)
    }
}

/// Whether `provider` is the adapter for the credentials `config`.
pub open spec fn adapts(provider: ConfiguredProvider, config: ProviderConfig) -> bool {
    match (provider, config) {
        (ConfiguredProvider::Nitrado(p), ProviderConfig::Nitrado(c)) => *p.provider_config == c,
        (ConfiguredProvider::Hetzner(p), ProviderConfig::Hetzner(c)) => *p.provider_config == c,
        (ConfiguredProvider::Netcup(p), ProviderConfig::Netcup(c)) => *p.provider_config == c,
        _ => false,
    }
}

/// Where a provider of a given name stands among the configured ones.
pub proof fn lemma_provider_index(providers: Seq<ProviderConfig>, name: Seq<char>, i: int)
    requires
        0 <= i <= providers.len(),
        i < providers.len() ==> providers[i].name_view() == name,
        forall|j: int| 0 <= j < i ==> (#[trigger] providers[j]).name_view() != name,
    ensures
        provider_index(providers, name) == i,
    decreases providers.len(),
{
    if providers.len() == 0 || providers[0].name_view() == name {
        if i > 0 {
            assert(providers[0].name_view() != name);
        }
    } else {
        let rest = providers.skip(1);
        assert forall|j: int| 0 <= j < i - 1 implies (#[trigger] rest[j]).name_view() != name by {
            assert(rest[j] == providers[j + 1]);
        }
        lemma_provider_index(rest, name, i - 1);
    }
}

/// The adapter of the first provider configured under `name`.
pub fn get_provider<'config>(name: &str, config: &'config Config) -> (r: Option<
    ConfiguredProvider<'config>,
>)
    ensures
        match r {
            Some(provider) => provider_index(config.providers@, name@) < config.providers@.len()
                && adapts(provider, config.providers@[provider_index(config.providers@, name@)]),
            None => provider_index(config.providers@, name@) == config.providers@.len(),
        },
{
    let mut i: usize = 0;
    while i < config.providers.len()
        invariant
            i <= config.providers.len(),
            forall|j: int| 0 <= j < i ==> (#[trigger] config.providers@[j]).name_view() != name@,
        decreases config.providers.len() - i,
    {
        if str_eq(config.providers[i].name(), name) {
            proof {
                lemma_provider_index(config.providers@, name@, i as int);
            }
            return Some(
                match &config.providers[i] {
                    ProviderConfig::Nitrado(c) => ConfiguredProvider::Nitrado(
                        NitradoProvider::new(c),
                    ),
                    ProviderConfig::Hetzner(c) => ConfiguredProvider::Hetzner(
                        HetznerProvider::new(c),
                    ),
                    ProviderConfig::Netcup(c) => ConfiguredProvider::Netcup(NetcupProvider::new(c)),
                },
            );
        }
        i += 1;
    }
    proof {
        lemma_provider_index(config.providers@, name@, i as int);
    }
    None
}

/// The names in `names`, borrowed.
fn borrowed<'a>(names: &'a Vec<String>) -> (out: Vec<&'a str>)
    ensures
        crate::provider::names(out@) == views(names@),
{
    let mut out: Vec<&'a str> = Vec::new();
    let mut i: usize = 0;
    while i < names.len()
        invariant
            i <= names.len(),
            out@.len() == i,
            forall|j: int| 0 <= j < i ==> (#[trigger] out@[j])@ == names@[j]@,
        decreases names.len() - i,
    {
        out.push(names[i].as_str());
        i += 1;
    }
    assert(crate::provider::names(out@) =~= views(names@));
    out
}

/// Whether `selection` asks for what `command` names: all records of its
/// domain, or the records of the names that it lists.
pub open spec fn selects(selection: Selection, command: GetCommand) -> bool {
    match selection {
        Selection::All(input) => command.subdomain_args.all && input.domain@ == command.domain@,
        Selection::Named(input) => {
            &&& !command.subdomain_args.all
            &&& input.domain@ == command.domain@
            &&& crate::provider::names(input.subdomains@) == views(
                command.subdomain_args.subdomains@,
            )
        },
    }
}

impl GetCommand {
    /// Whether the command lists names of records.
    pub open spec fn names_records(self) -> bool {
        self.subdomain_args.subdomains@.len() > 0
    }

    /// Decides what the command does. All records and names of records
    /// exclude each other, and one of the two must be given; the provider
    /// must be configured.
    pub fn plan<'input>(&'input self, config: &'input Config) -> (r: Result<
        Plan<'input>,
        GetError,
    >)
        ensures
            match r {
                Ok(plan) => {
                    &&& self.subdomain_args.all != self.names_records()
                    &&& provider_index(config.providers@, self.provider@) < config.providers@.len()
                    &&& adapts(
                        plan.provider,
                        config.providers@[provider_index(config.providers@, self.provider@)],
                    )
                    &&& selects(plan.selection, *self)
                },
                Err(GetError::ProviderNotConfigured(name)) => {
                    &&& self.subdomain_args.all != self.names_records()
                    &&& provider_index(config.providers@, self.provider@)
                        == config.providers@.len()
                    &&& name@ == self.provider@
                },
                Err(GetError::ProviderError(reason)) => {
                    &&& self.subdomain_args.all == self.names_records()
                    &&& reason@ == (if self.subdomain_args.all {
                        "Cannot specify both --all and specific subdomains"@
                    } else {
                        "Must specify either --all or specific subdomains"@
                    })
                },
            },
    {
        let all = self.subdomain_args.all;
        let named = self.subdomain_args.subdomains.len() > 0;
        if all && named {
            return Err(
                GetError::ProviderError(
                    "Cannot specify both --all and specific subdomains".to_string(),
                ),
            );
        }
        if !all && !named {
            return Err(
                GetError::ProviderError(
                    "Must specify either --all or specific subdomains".to_string(),
                ),
            );
        }
        let provider = match get_provider(self.provider.as_str(), config) {
            Some(provider) => provider,
            None => {
                return Err(GetError::ProviderNotConfigured(self.provider.clone()));
            },
        };
        let selection = if all {
            Selection::All(GetAllRecordsInput { domain: self.domain.as_str() })
        } else {
            Selection::Named(
                GetRecordsInput {
                    domain: self.domain.as_str(),
                    subdomains: borrowed(&self.subdomain_args.subdomains),
                },
            )
        };
        Ok(Plan { provider, selection })
    }
}

} // verus!
