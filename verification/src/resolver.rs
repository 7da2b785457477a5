//! The resolution of the caller's public address: from the answer of an
//! address service to an address, and from an address to a record.
use crate::config::dns::{AutomaticRecordConfig, ResolveType};
use crate::config::resolver::{IpResolver, IpResolverType};
use crate::config::Config;
use crate::json::{json_document, parse_json, walk, JsonValue};
use crate::text::{
    first_index, lemma_join_split, split_at_char, split_on, trim, trimmed, views,
};
use crate::types::dns::{Record, RecordValue, RecordValueView, RecordView};
use crate::types::ip::{parse_ipv4, parse_ipv6, AddrParseError, Ipv4Addr, Ipv6Addr};
use vstd::prelude::*;

verus! {

/// The failure of an HTTP exchange, as `reqwest` reports it.
#[verifier::external_type_specification]
#[verifier::external_body]
pub struct ExTransportError(reqwest::Error);

/// The service that tells the caller's IPv4 address.
#[derive(Debug)]
pub struct Ipv4ResolverConfig<'resolver> {
    pub ipv4_resolver: &'resolver IpResolver,
}

/// The service that tells the caller's IPv6 address.
#[derive(Debug)]
pub struct Ipv6ResolverConfig<'resolver> {
    pub ipv6_resolver: &'resolver IpResolver,
}

impl<'config> From<&'config Config> for Ipv4ResolverConfig<'config> {
    fn from(config: &'config Config) -> (r: Self) {
        Self { ipv4_resolver: &config.resolver.ipv4 }
    }
}

impl<'config> vstd::std_specs::convert::FromSpecImpl<&'config Config> for Ipv4ResolverConfig<'config> {
    open spec fn obeys_from_spec() -> bool {
        true
    }

    open spec fn from_spec(config: &'config Config) -> Self {
        Self { ipv4_resolver: &config.resolver.ipv4 }
    }
}

impl<'config> From<&'config Config> for Ipv6ResolverConfig<'config> {
    fn from(config: &'config Config) -> (r: Self) {
        Self { ipv6_resolver: &config.resolver.ipv6 }
    }
}

impl<'config> vstd::std_specs::convert::FromSpecImpl<&'config Config> for Ipv6ResolverConfig<'config> {
    open spec fn obeys_from_spec() -> bool {
        true
    }

    open spec fn from_spec(config: &'config Config) -> Self {
        Self { ipv6_resolver: &config.resolver.ipv6 }
    }
}

/// Why no text was found in a JSON answer.
#[derive(Debug)]
pub enum JsonParseError {
    /// The answer is no JSON document.
    SerdeJson(serde_json::Error),
    /// The path has no segment.
    EmptyPath,
    /// The path, and the segment of it that the document does not hold.
    PathNotFound(String, String),
    /// The value at the path, which is no string.
    NotAString(JsonValue),
}

/// The mathematical model of a [`JsonParseError`].
pub enum JsonFailure {
    Syntax,
    EmptyPath,
    PathNotFound(Seq<char>, Seq<char>),
    NotAString(JsonValue),
}

impl View for JsonParseError {
    type V = JsonFailure;

    open spec fn view(&self) -> JsonFailure {
        match *self {
            JsonParseError::SerdeJson(_) => JsonFailure::Syntax,
            JsonParseError::EmptyPath => JsonFailure::EmptyPath,
            JsonParseError::PathNotFound(path, part) => JsonFailure::PathNotFound(path@, part@),
            JsonParseError::NotAString(v) => JsonFailure::NotAString(v),
        }
    }
}

/// The text that stands in the document `doc` at the dot-separated `path`:
/// each segment is looked up as a key of the object reached so far, and the
/// value reached at the end must be a string.
pub open spec fn text_at(doc: JsonValue, path: Seq<char>) -> Result<Seq<char>, JsonFailure> {
    match walk(doc, split_on(path, '.')) {
        Err(part) => Err(JsonFailure::PathNotFound(path, part)),
        Ok(JsonValue::String(s)) => Ok(s@),
        Ok(other) => Err(JsonFailure::NotAString(other)),
    }
}

/// The text that stands in the JSON text `response` at `path`. A path
/// without segments is refused before the text is read.
pub open spec fn response_text_at(response: Seq<char>, path: Seq<char>) -> Result<
    Seq<char>,
    JsonFailure,
> {
    if split_on(path, '.').len() == 0 {
        Err(JsonFailure::EmptyPath)
    } else {
        match json_document(response) {
            None => Err(JsonFailure::Syntax),
            Some(doc) => text_at(doc, path),
        }
    }
}

/// Every path has a segment, the empty path the empty segment: no lookup
/// fails for want of one.
pub proof fn lemma_path_is_never_empty(response: Seq<char>, path: Seq<char>)
    ensures
        split_on(path, '.').len() >= 1,
        response_text_at(response, path) != Err::<Seq<char>, JsonFailure>(JsonFailure::EmptyPath),
        split_on(Seq::<char>::empty(), '.') == seq![Seq::<char>::empty()],
{
    lemma_join_split(path, '.');
    let empty = Seq::<char>::empty();
    assert(first_index(empty, '.') == 0);
    match json_document(response) {
        None => {},
        Some(doc) => {
            match walk(doc, split_on(path, '.')) {
                Err(part) => {},
                Ok(JsonValue::String(s)) => {},
                Ok(other) => {},
            }
        },
    }
}

/// The model of the outcome of a lookup.
pub open spec fn text_outcome(r: Result<String, JsonParseError>) -> Result<Seq<char>, JsonFailure> {
    match r {
        Ok(s) => Ok(s@),
        Err(e) => Err(e@),
    }
}

/// Looks up the text at the dot-separated `path` in the document `doc`.
pub fn extract_path(doc: JsonValue, path: &str) -> (r: Result<String, JsonParseError>)
    ensures
        text_outcome(r) == text_at(doc, path@),
{
    let parts = split_at_char(path, '.');
    let ghost segments = split_on(path@, '.');
    let mut current = doc;
    let mut i: usize = 0;
    assert(segments.skip(0) == segments);
    while i < parts.len()
        invariant
            i <= parts.len(),
            views(parts@) == segments,
            segments == split_on(path@, '.'),
            walk(doc, segments) == walk(current, segments.skip(i as int)),
        decreases parts.len() - i,
    {
        assert(segments.skip(i as int)[0] == parts@[i as int]@);
        assert(segments.skip(i as int).skip(1) == segments.skip(i + 1));
        match current.take(parts[i].as_str()) {
            Some(next) => {
                current = next;
            },
            None => {
                return Err(JsonParseError::PathNotFound(path.to_owned(), parts[i].clone()));
            },
        }
        i += 1;
    }
    match current {
        JsonValue::String(s) => Ok(s),
        other => Err(JsonParseError::NotAString(other)),
    }
}

/// Reads `response` as a JSON document and looks up the text at the
/// dot-separated `path` in it.
pub fn parse_json_response(response: &str, path: &str) -> (r: Result<String, JsonParseError>)
    ensures
        text_outcome(r) == response_text_at(response@, path@),
{
    let parts = split_at_char(path, '.');
    if parts.len() == 0 {
        return Err(JsonParseError::EmptyPath);
    }
    match parse_json(response) {
        Ok(doc) => extract_path(doc, path),
        Err(e) => Err(JsonParseError::SerdeJson(e)),
    }
}

/// Why the caller's address could not be told.
#[derive(Debug)]
pub enum IpResolverError {
    /// The HTTP exchange failed.
    Reqwest(reqwest::Error),
    /// The JSON answer does not hold the address.
    JsonParse(JsonParseError),
    /// The text found is no address of the family asked for.
    InvalidIpFormat(AddrParseError),
}

/// The mathematical model of an [`IpResolverError`].
pub enum ResolveFailure {
    Reqwest(reqwest::Error),
    JsonParse(JsonFailure),
    InvalidIpFormat(AddrParseError),
}

impl View for IpResolverError {
    type V = ResolveFailure;

    open spec fn view(&self) -> ResolveFailure {
        match *self {
            IpResolverError::Reqwest(e) => ResolveFailure::Reqwest(e),
            IpResolverError::JsonParse(e) => ResolveFailure::JsonParse(e@),
            IpResolverError::InvalidIpFormat(e) => ResolveFailure::InvalidIpFormat(e),
        }
    }
}

/// The text of the address in the answer `body` of a service read as
/// `type_` says: the trimmed answer itself, or the text at the path in the
/// trimmed answer.
pub open spec fn address_text_in(type_: IpResolverType, body: Seq<char>) -> Result<
    Seq<char>,
    ResolveFailure,
> {
    match type_ {
        IpResolverType::Raw => Ok(trimmed(body)),
        IpResolverType::JSON(path) => match response_text_at(trimmed(body), path@) {
            Ok(text) => Ok(text),
            Err(e) => Err(ResolveFailure::JsonParse(e)),
        },
    }
}

/// The text of the address that the exchange `response` with a service read
/// as `type_` says brought.
pub open spec fn address_text_of(
    type_: IpResolverType,
    response: Result<String, reqwest::Error>,
) -> Result<Seq<char>, ResolveFailure> {
    match response {
        Err(e) => Err(ResolveFailure::Reqwest(e)),
        Ok(body) => address_text_in(type_, body@),
    }
}

/// The IPv4 address that the exchange `response` with `resolver` brought.
pub open spec fn resolved_ipv4(
    resolver: IpResolver,
    response: Result<String, reqwest::Error>,
) -> Result<Seq<u8>, ResolveFailure> {
    match address_text_of(resolver.type_, response) {
        Err(e) => Err(e),
        Ok(text) => match parse_ipv4(text) {
            Some(o) => Ok(o),
            None => Err(ResolveFailure::InvalidIpFormat(AddrParseError::Ipv4)),
        },
    }
}

/// The IPv6 address that the exchange `response` with `resolver` brought.
pub open spec fn resolved_ipv6(
    resolver: IpResolver,
    response: Result<String, reqwest::Error>,
) -> Result<Seq<u16>, ResolveFailure> {
    match address_text_of(resolver.type_, response) {
        Err(e) => Err(e),
        Ok(text) => match parse_ipv6(text) {
            Some(g) => Ok(g),
            None => Err(ResolveFailure::InvalidIpFormat(AddrParseError::Ipv6)),
        },
    }
}

/// The model of the outcome of finding the text of an address.
pub open spec fn address_text_outcome(r: Result<String, IpResolverError>) -> Result<
    Seq<char>,
    ResolveFailure,
> {
    match r {
        Ok(s) => Ok(s@),
        Err(e) => Err(e@),
    }
}

/// The model of the outcome of resolving an IPv4 address.
pub open spec fn ipv4_outcome(r: Result<Ipv4Addr, IpResolverError>) -> Result<
    Seq<u8>,
    ResolveFailure,
> {
    match r {
        Ok(ip) => Ok(ip@),
        Err(e) => Err(e@),
    }
}

/// The model of the outcome of resolving an IPv6 address.
pub open spec fn ipv6_outcome(r: Result<Ipv6Addr, IpResolverError>) -> Result<
    Seq<u16>,
    ResolveFailure,
> {
    match r {
        Ok(ip) => Ok(ip@),
        Err(e) => Err(e@),
    }
}

/// Finds the text of the address in what the exchange with `resolver`
/// brought. The rule is the same for both address families.
pub fn address_text(resolver: &IpResolver, response: Result<String, reqwest::Error>) -> (r: Result<
    String,
    IpResolverError,
>)
    ensures
        address_text_outcome(r) == address_text_of(resolver.type_, response),
{
    let body = match response {
        Ok(body) => trim(body.as_str()),
        Err(e) => {
            return Err(IpResolverError::Reqwest(e));
        },
    };
    match &resolver.type_ {
        IpResolverType::Raw => Ok(body),
        IpResolverType::JSON(path) => match parse_json_response(body.as_str(), path.as_str()) {
            Ok(text) => Ok(text),
            Err(e) => Err(IpResolverError::JsonParse(e)),
        },
    }
}

/// Tells the caller's IPv4 address from what the exchange with the IPv4
/// service brought.
pub fn resolve_ipv4<'resolver>(
    config: &Ipv4ResolverConfig<'resolver>,
    response: Result<String, reqwest::Error>,
) -> (r: Result<Ipv4Addr, IpResolverError>)
    ensures
        ipv4_outcome(r) == resolved_ipv4(*config.ipv4_resolver, response),
{
    let text = match address_text(config.ipv4_resolver, response) {
        Ok(text) => text,
        Err(e) => {
            return Err(e);
        },
    };
    match Ipv4Addr::parse(text.as_str()) {
        Ok(ip) => Ok(ip),
        Err(e) => Err(IpResolverError::InvalidIpFormat(e)),
    }
}

/// Tells the caller's IPv6 address from what the exchange with the IPv6
/// service brought.
pub fn resolve_ipv6<'resolver>(
    config: &Ipv6ResolverConfig<'resolver>,
    response: Result<String, reqwest::Error>,
) -> (r: Result<Ipv6Addr, IpResolverError>)
    ensures
        ipv6_outcome(r) == resolved_ipv6(*config.ipv6_resolver, response),
{
    let text = match address_text(config.ipv6_resolver, response) {
        Ok(text) => text,
        Err(e) => {
            return Err(e);
        },
    };
    match Ipv6Addr::parse(text.as_str()) {
        Ok(ip) => Ok(ip),
        Err(e) => Err(IpResolverError::InvalidIpFormat(e)),
    }
}

/// The service to ask for the value of the automatic record
/// `automatic_record_config`: that of its address family.
pub fn resolver_for<'config>(
    config: &'config Config,
    automatic_record_config: &AutomaticRecordConfig,
) -> (resolver: &'config IpResolver)
    ensures
        *resolver == (match automatic_record_config.resolve_type {
            ResolveType::IPv4 => config.resolver.ipv4,
            ResolveType::IPv6 => config.resolver.ipv6,
        }),
{
    match automatic_record_config.resolve_type {
        ResolveType::IPv4 => &config.resolver.ipv4,
        ResolveType::IPv6 => &config.resolver.ipv6,
    }
}

/// The record that the automatic record `automatic` stands for, given what
/// the exchange with the service of its family brought: the configured
/// domain and time to live, with the resolved address as `A` or `AAAA` value.
/// A failure of the resolution is handed on as it is.
pub open spec fn resolved_record(
    config: Config,
    automatic: AutomaticRecordConfig,
    response: Result<String, reqwest::Error>,
) -> Result<RecordView, ResolveFailure> {
    match automatic.resolve_type {
        ResolveType::IPv4 => match resolved_ipv4(config.resolver.ipv4, response) {
            Ok(o) => Ok(
                RecordView {
                    domain: automatic.domain@,
                    value: RecordValueView::A(o),
                    ttl: automatic.ttl,
                },
            ),
            Err(e) => Err(e),
        },
        ResolveType::IPv6 => match resolved_ipv6(config.resolver.ipv6, response) {
            Ok(g) => Ok(
                RecordView {
                    domain: automatic.domain@,
                    value: RecordValueView::AAAA(g),
                    ttl: automatic.ttl,
                },
            ),
            Err(e) => Err(e),
        },
    }
}

/// The model of the outcome of resolving a record.
pub open spec fn record_outcome(r: Result<Record, IpResolverError>) -> Result<
    RecordView,
    ResolveFailure,
> {
    match r {
        Ok(record) => Ok(record@),
        Err(e) => Err(e@),
    }
}

/// Builds the record of an automatic record from what the exchange with the
/// service named by [`resolver_for`] brought.
pub fn resolve_to_record(
    config: &Config,
    automatic_record_config: &AutomaticRecordConfig,
    response: Result<String, reqwest::Error>,
) -> (r: Result<Record, IpResolverError>)
    ensures
        record_outcome(r) == resolved_record(*config, *automatic_record_config, response),
{
    let domain = automatic_record_config.domain.clone();
    let ttl = automatic_record_config.ttl;
    match automatic_record_config.resolve_type {
        ResolveType::IPv4 => {
            let ipv4_resolver_config = Ipv4ResolverConfig::from(config);
            match resolve_ipv4(&ipv4_resolver_config, response) {
                Ok(ipv4) => Ok(Record { domain, value: RecordValue::A(ipv4), ttl }),
                Err(e) => Err(e),
            }
        },
        ResolveType::IPv6 => {
            let ipv6_resolver_config = Ipv6ResolverConfig::from(config);
            match resolve_ipv6(&ipv6_resolver_config, response) {
                Ok(ipv6) => Ok(Record { domain, value: RecordValue::AAAA(ipv6), ttl }),
                Err(e) => Err(e),
            }
        },
    }
}

} // verus!
