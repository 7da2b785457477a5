//! The adapter for the Netcup DNS API.
use crate::provider::{
    all_features, every_feature, is_success, response_status, status_is_success, status_of,
    Feature,
    GetAllRecordsInput, Provider, Request, Unimplemented,
};
use crate::types::dns;
use vstd::prelude::*;
use vstd::string::*;

pub mod config;
pub mod model;

pub use config::{Config, DnsConfig, DomainConfig};
pub use model::{GetRecordsResponse, Record, TryFromRecordError};

verus! {

/// The Netcup adapter: the knowledge of the Netcup API, with the
/// credentials of one account.
pub struct NetcupProvider<'provider_config> {
    pub provider_config: &'provider_config Config,
}

/// Why a request to the Netcup API brought no records.
#[derive(Debug)]
pub enum NetcupError {
    /// The HTTP exchange failed.
    Reqwest(reqwest::Error),
    /// The API answered with a status other than success; the status and the
    /// answer.
    Unsuccessful(u16, reqwest::Response),
    /// The answer is no JSON document of the expected shape.
    Json(serde_json::Error),
    /// The account has no zone of this name.
    DomainNotFound(String),
}

/// Lets an answer with the status `status` through where the status
/// reports success, and refuses it with its status otherwise.
pub fn accept_status(status: u16, response: reqwest::Response) -> (r: Result<
    reqwest::Response,
    NetcupError,
>)
    ensures
        is_success(status) ==> r == Ok::<reqwest::Response, NetcupError>(response),
        !is_success(status) ==> r == Err::<reqwest::Response, NetcupError>(
            NetcupError::Unsuccessful(status, response),
        ),
{
    if status_is_success(status) {
        Ok(response)
    } else {
        Err(NetcupError::Unsuccessful(status, response))
    }
}

/// Lets an answer through where its status reports success, and refuses it
/// with its status otherwise. The answer itself is handed on untouched.
pub fn accept(response: reqwest::Response) -> (r: Result<reqwest::Response, NetcupError>)
    ensures
        is_success(status_of(response)) ==> r == Ok::<reqwest::Response, NetcupError>(response),
        !is_success(status_of(response)) ==> r == Err::<reqwest::Response, NetcupError>(
            NetcupError::Unsuccessful(status_of(response), response),
        ),
{
    let status = response_status(&response);
    accept_status(status, response)
}

impl<'provider_config> NetcupProvider<'provider_config> {
    /// The adapter for the account configured in `provider_config`.
    pub fn new(provider_config: &'provider_config Config) -> (provider: NetcupProvider<
        'provider_config,
    >)
        ensures
            provider.provider_config == provider_config,
    {
        NetcupProvider { provider_config }
    }
}

impl Provider for NetcupProvider<'_> {
    open spec fn provider_name(&self) -> Seq<char> {
        "Netcup"@
    }

    open spec fn supported_features(&self) -> Seq<Feature> {
        all_features()
    }

    fn get_provider_name(&self) -> (name: &'static str) {
        "Netcup"
    }

    fn get_supported_features(&self) -> (features: Vec<Feature>) {
        every_feature()
    }

    fn all_records_request(&self, input: &GetAllRecordsInput) -> (r: Result<Request, Unimplemented>)
        ensures
            r == Err::<Request, Unimplemented>(Unimplemented(Feature::GetAllRecords)),
    {
        Err(Unimplemented(Feature::GetAllRecords))
    }

    fn add_record(&self, record: &dns::Record) -> (r: Result<Request, Unimplemented>)
        ensures
            r == Err::<Request, Unimplemented>(Unimplemented(Feature::AddRecord)),
    {
        Err(Unimplemented(Feature::AddRecord))
    }

    fn update_record(&self, record: &dns::Record) -> (r: Result<Request, Unimplemented>)
        ensures
            r == Err::<Request, Unimplemented>(Unimplemented(Feature::UpdateRecord)),
    {
        Err(Unimplemented(Feature::UpdateRecord))
    }

    fn delete_record(&self, record: &dns::Record) -> (r: Result<Request, Unimplemented>)
        ensures
            r == Err::<Request, Unimplemented>(Unimplemented(Feature::DeleteRecord)),
    {
        Err(Unimplemented(Feature::DeleteRecord))
    }
}

} // verus!
