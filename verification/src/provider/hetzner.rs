//! The adapter for the Hetzner DNS API.
use crate::provider::{
    all_features, every_feature, is_success, response_status, status_is_success, status_of,
    Feature,
    GetAllRecordsInput, Provider, Request, Unimplemented,
};
use crate::text::str_eq;
use crate::types::dns;
use crate::json::{get, json_document, parse_json, JsonValue};
use vstd::prelude::*;
use vstd::string::*;

pub mod config;
pub mod model;

pub use config::{Config, DnsConfig, DomainConfig};
pub use model::{GetRecordsResponse, Record, TryFromRecordError};

verus! {

/// The Hetzner adapter: the knowledge of the Hetzner API, with the
/// credentials of one account.
pub struct HetznerProvider<'provider_config> {
    pub provider_config: &'provider_config Config,
}

/// Why a request to the Hetzner API brought no records.
#[derive(Debug)]
pub enum HetznerError {
    /// The HTTP exchange failed.
    Reqwest(reqwest::Error),
    /// The API answered with a status other than success; the status and the
    /// answer.
    Unsuccessful(u16, reqwest::Response),
    /// The answer is no JSON document of the expected shape.
    Json(serde_json::Error),
    /// The account has no zone of this name.
    DomainNotFound(String),
}

/// The identifier of `zone`, where `zone` is named `domain`: `zone` holds
/// the strings `name` and `id`, and `name` is `domain`, letter for letter.
pub open spec fn zone_id_if_named(zone: JsonValue, domain: Seq<char>) -> Option<Seq<char>> {
    match (get(zone, "name"@), get(zone, "id"@)) {
        (Some(JsonValue::String(name)), Some(JsonValue::String(id))) => if name@ == domain {
            Some(id@)
        } else {
            None
        },
        _ => None,
    }
}

/// The identifier of the first of `zones` that is named `domain`.
pub open spec fn first_zone_id(zones: Seq<JsonValue>, domain: Seq<char>) -> Option<Seq<char>>
    decreases zones.len(),
{
    if zones.len() == 0 {
        None
    } else {
        match zone_id_if_named(zones[0], domain) {
            Some(id) => Some(id),
            None => first_zone_id(zones.skip(1), domain),
        }
    }
}

/// The identifier of the zone named `domain` in the list of zones `doc`: a
/// document whose member `zones` is an array of zones.
pub open spec fn zone_id_in(doc: JsonValue, domain: Seq<char>) -> Option<Seq<char>> {
    match get(doc, "zones"@) {
        Some(JsonValue::Array(zones)) => first_zone_id(zones@, domain),
        _ => None,
    }
}

/// The identifier of `zone`, where `zone` is named `domain`.
fn zone_id_of(zone: &JsonValue, domain: &str) -> (r: Option<String>)
    ensures
        match zone_id_if_named(*zone, domain@) {
            Some(id) => r matches Some(found) && found@ == id,
            None => r is None,
        },
{
    let name = match zone.get("name") {
        Some(v) => match v.as_str() {
            Some(name) => name,
            None => {
                return None;
            },
        },
        None => {
            return None;
        },
    };
    let id = match zone.get("id") {
        Some(v) => match v.as_str() {
            Some(id) => id,
            None => {
                return None;
            },
        },
        None => {
            return None;
        },
    };
    if str_eq(name, domain) {
        Some(id.to_owned())
    } else {
        None
    }
}

/// Lets an answer with the status `status` through where the status
/// reports success, and refuses it with its status otherwise.
pub fn accept_status(status: u16, response: reqwest::Response) -> (r: Result<
    reqwest::Response,
    HetznerError,
>)
    ensures
        is_success(status) ==> r == Ok::<reqwest::Response, HetznerError>(response),
        !is_success(status) ==> r == Err::<reqwest::Response, HetznerError>(
            HetznerError::Unsuccessful(status, response),
        ),
{
    if status_is_success(status) {
        Ok(response)
    } else {
        Err(HetznerError::Unsuccessful(status, response))
    }
}

/// Lets an answer through where its status reports success, and refuses it
/// with its status otherwise. The answer itself is handed on untouched.
pub fn accept(response: reqwest::Response) -> (r: Result<reqwest::Response, HetznerError>)
    ensures
        is_success(status_of(response)) ==> r == Ok::<reqwest::Response, HetznerError>(response),
        !is_success(status_of(response)) ==> r == Err::<reqwest::Response, HetznerError>(
            HetznerError::Unsuccessful(status_of(response), response),
        ),
{
    let status = response_status(&response);
    accept_status(status, response)
}

impl<'provider_config> HetznerProvider<'provider_config> {
    /// The adapter for the account configured in `provider_config`.
    pub fn new(provider_config: &'provider_config Config) -> (provider: HetznerProvider<
        'provider_config,
    >)
        ensures
            provider.provider_config == provider_config,
    {
        HetznerProvider { provider_config }
    }

    /// The address of the list of zones.
    pub open spec fn zones_url(self) -> Seq<char> {
        self.provider_config.api_base_url@ + "/zones"@
    }

    /// The address of the records of the zone `zone_id`.
    pub open spec fn records_url(self, zone_id: Seq<char>) -> Seq<char> {
        self.provider_config.api_base_url@ + "/records?zone_id="@ + zone_id
    }

    /// The request for the list of zones, in which the zone of a domain is
    /// looked up.
    pub fn zones_request(&self) -> (request: Request)
        ensures
            request.url@ == self.zones_url(),
            request.header_name@ == "Auth-API-Token"@,
            request.header_value@ == self.provider_config.api_key@,
    {
        let mut url = self.provider_config.api_base_url.clone();
        url.append("/zones");
        Request {
            url,
            header_name: "Auth-API-Token".to_string(),
            header_value: self.provider_config.api_key.clone(),
        }
    }

    /// The request for all records of the zone `zone_id`.
    pub fn records_request(&self, zone_id: &str) -> (request: Request)
        ensures
            request.url@ == self.records_url(zone_id@),
            request.header_name@ == "Auth-API-Token"@,
            request.header_value@ == self.provider_config.api_key@,
    {
        let mut url = self.provider_config.api_base_url.clone();
        url.append("/records?zone_id=");
        url.append(zone_id);
        Request {
            url,
            header_name: "Auth-API-Token".to_string(),
            header_value: self.provider_config.api_key.clone(),
        }
    }

    /// Looks up the zone of `domain` in the list of zones `doc`.
    pub fn find_zone_id(doc: &JsonValue, domain: &str) -> (r: Result<String, HetznerError>)
        ensures
            match zone_id_in(*doc, domain@) {
                Some(id) => r matches Ok(found) && found@ == id,
                None => r matches Err(HetznerError::DomainNotFound(name)) && name@ == domain@,
            },
    {
        let zones = match doc.get("zones") {
            Some(zones) => match zones.as_array() {
                Some(zones) => zones,
                None => {
                    return Err(HetznerError::DomainNotFound(domain.to_owned()));
                },
            },
            None => {
                return Err(HetznerError::DomainNotFound(domain.to_owned()));
            },
        };
        let mut i: usize = 0;
        assert(zones@.skip(0) == zones@);
        while i < zones.len()
            invariant
                i <= zones.len(),
                zone_id_in(*doc, domain@) == first_zone_id(zones@.skip(i as int), domain@),
            decreases zones.len() - i,
        {
            assert(zones@.skip(i as int)[0] == zones@[i as int]);
            assert(zones@.skip(i as int).skip(1) == zones@.skip(i + 1));
            match zone_id_of(&zones[i], domain) {
                Some(id) => {
                    return Ok(id);
                },
                None => {},
            }
            i += 1;
        }
        Err(HetznerError::DomainNotFound(domain.to_owned()))
    }

    /// Reads the list of zones from the answer `body` and looks up the zone
    /// of `domain` in it.
    pub fn get_zone_id(&self, body: &str, domain: &str) -> (r: Result<String, HetznerError>)
        ensures
            match json_document(body@) {
                None => r matches Err(HetznerError::Json(_)),
                Some(doc) => match zone_id_in(doc, domain@) {
                    Some(id) => r matches Ok(found) && found@ == id,
                    None => r matches Err(HetznerError::DomainNotFound(name)) && name@ == domain@,
                },
            },
    {
        match parse_json(body) {
            Ok(doc) => Self::find_zone_id(&doc, domain),
            Err(e) => Err(HetznerError::Json(e)),
        }
    }
}

impl Provider for HetznerProvider<'_> {
    open spec fn provider_name(&self) -> Seq<char> {
        "Hetzner"@
    }

    open spec fn supported_features(&self) -> Seq<Feature> {
        all_features()
    }

    fn get_provider_name(&self) -> (name: &'static str) {
        "Hetzner"
    }

    fn get_supported_features(&self) -> (features: Vec<Feature>) {
        every_feature()
    }

    fn all_records_request(&self, input: &GetAllRecordsInput) -> (r: Result<Request, Unimplemented>)
        ensures
            r matches Ok(request) && request.url@ == self.zones_url() && request.header_name@
                == "Auth-API-Token"@ && request.header_value@ == self.provider_config.api_key@,
    {
        Ok(self.zones_request())
    }

    fn add_record(&self, record: &dns::Record) -> (r: Result<Request, Unimplemented>)
        ensures
            r == Err::<Request, Unimplemented>(Unimplemented(Feature::AddRecord)),
    {
        Err(Unimplemented(Feature::AddRecord))
    }

    fn update_record(&self, record: &dns::Record) -> (r: Result<Request, Unimplemented>)
        ensures
            r == Err::<Request, Unimplemented>(Unimplemented(Feature::UpdateRecord)),
    {
        Err(Unimplemented(Feature::UpdateRecord))
    }

    fn delete_record(&self, record: &dns::Record) -> (r: Result<Request, Unimplemented>)
        ensures
            r == Err::<Request, Unimplemented>(Unimplemented(Feature::DeleteRecord)),
    {
        Err(Unimplemented(Feature::DeleteRecord))
    }
}

} // verus!
