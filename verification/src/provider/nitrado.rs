//! The adapter for the Nitrado DNS API.
use crate::provider::{
    all_features, every_feature, is_success, response_status, status_is_success, status_of,
    Feature,
    GetAllRecordsInput, Provider, Request, Unimplemented,
};
use crate::types::dns;
use vstd::prelude::*;
use vstd::string::*;

pub mod config;
pub mod model;

pub use config::{Config, DnsConfig, DomainConfig};
pub use model::{GetRecordsResponse, Record, RecordMode, TryFromRecordError};

verus! {

/// The Nitrado adapter: the knowledge of the Nitrado API, with the
/// credentials of one account.
pub struct NitradoProvider<'provider_config> {
    pub provider_config: &'provider_config Config,
}

/// Why a request to the Nitrado API brought no records.
#[derive(Debug)]
pub enum NitradoError {
    /// The HTTP exchange failed.
    Reqwest(reqwest::Error),
    /// The API answered with a status other than success; the status and the
    /// answer.
    Unsuccessful(u16, reqwest::Response),
    /// The answer is no JSON document of the expected shape.
    Json(serde_json::Error),
}

/// Lets an answer with the status `status` through where the status
/// reports success, and refuses it with its status otherwise.
pub fn accept_status(status: u16, response: reqwest::Response) -> (r: Result<
    reqwest::Response,
    NitradoError,
>)
    ensures
        is_success(status) ==> r == Ok::<reqwest::Response, NitradoError>(response),
        !is_success(status) ==> r == Err::<reqwest::Response, NitradoError>(
            NitradoError::Unsuccessful(status, response),
        ),
{
    if status_is_success(status) {
        Ok(response)
    } else {
        Err(NitradoError::Unsuccessful(status, response))
    }
}

/// Lets an answer through where its status reports success, and refuses it
/// with its status otherwise. The answer itself is handed on untouched.
pub fn accept(response: reqwest::Response) -> (r: Result<reqwest::Response, NitradoError>)
    ensures
        is_success(status_of(response)) ==> r == Ok::<reqwest::Response, NitradoError>(response),
        !is_success(status_of(response)) ==> r == Err::<reqwest::Response, NitradoError>(
            NitradoError::Unsuccessful(status_of(response), response),
        ),
{
    let status = response_status(&response);
    accept_status(status, response)
}

impl<'provider_config> NitradoProvider<'provider_config> {
    /// The adapter for the account configured in `provider_config`.
    pub fn new(provider_config: &'provider_config Config) -> (provider: NitradoProvider<
        'provider_config,
    >)
        ensures
            provider.provider_config == provider_config,
    {
        NitradoProvider { provider_config }
    }

    /// The address of the records of `domain`.
    pub open spec fn records_url(self, domain: Seq<char>) -> Seq<char> {
        self.provider_config.api_base_url@ + "/domain/"@ + domain + "/records"@
    }

    /// The value of the `Authorization` header: the API key as bearer token.
    pub open spec fn bearer(self) -> Seq<char> {
        "Bearer "@ + self.provider_config.api_key@
    }

    /// The request for all records of the domain of `input`.
    pub fn records_request(&self, input: &GetAllRecordsInput) -> (request: Request)
        ensures
            request.url@ == self.records_url(input.domain@),
            request.header_name@ == "Authorization"@,
            request.header_value@ == self.bearer(),
    {
        let mut url = self.provider_config.api_base_url.clone();
        url.append("/domain/");
        url.append(input.domain);
        url.append("/records");
        let mut bearer = "Bearer ".to_string();
        bearer.append(self.provider_config.api_key.as_str());
        Request { url, header_name: "Authorization".to_string(), header_value: bearer }
    }
}

impl Provider for NitradoProvider<'_> {
    open spec fn provider_name(&self) -> Seq<char> {
        "Nitrado"@
    }

    open spec fn supported_features(&self) -> Seq<Feature> {
        all_features()
    }

    fn get_provider_name(&self) -> (name: &'static str) {
        "Nitrado"
    }

    fn get_supported_features(&self) -> (features: Vec<Feature>) {
        every_feature()
    }

    fn all_records_request(&self, input: &GetAllRecordsInput) -> (r: Result<Request, Unimplemented>)
        ensures
            r matches Ok(request) && request.url@ == self.records_url(input.domain@)
                && request.header_name@ == "Authorization"@ && request.header_value@ == self.bearer(),
    {
        Ok(self.records_request(input))
    }

    fn add_record(&self, record: &dns::Record) -> (r: Result<Request, Unimplemented>)
        ensures
            r == Err::<Request, Unimplemented>(Unimplemented(Feature::AddRecord)),
    {
        Err(Unimplemented(Feature::AddRecord))
    }

    fn update_record(&self, record: &dns::Record) -> (r: Result<Request, Unimplemented>)
        ensures
            r == Err::<Request, Unimplemented>(Unimplemented(Feature::UpdateRecord)),
    {
        Err(Unimplemented(Feature::UpdateRecord))
    }

    fn delete_record(&self, record: &dns::Record) -> (r: Result<Request, Unimplemented>)
        ensures
            r == Err::<Request, Unimplemented>(Unimplemented(Feature::DeleteRecord)),
    {
        Err(Unimplemented(Feature::DeleteRecord))
    }
}

} // verus!
