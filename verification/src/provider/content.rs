//! The content grammar shared by the provider adapters: how the text that a
//! provider sends for a record becomes the typed value of that record.
use crate::text::{
    is_whitespace, lemma_tokens_hold_no_whitespace, parse_u16, parse_u16_text, parse_u8,
    parse_u8_text, split_whitespace, views, whitespace_tokens, ParseIntError,
};
use crate::types::dns::{
    MxRecord, MxRecordView, RecordType, RecordValue, RecordValueView, RecordView,
};
use crate::types::ip::laws::{lemma_ipv4_round_trip, lemma_ipv6_round_trip};
use crate::types::ip::{
    ipv4_text, ipv6_text, parse_ipv4, parse_ipv6, AddrParseError, Ipv4Addr, Ipv6Addr,
};
use vstd::prelude::*;

verus! {

/// Why the content of a record does not have the shape of its type.
#[derive(Debug, Clone)]
pub enum ContentError {
    InvalidIp(AddrParseError),
    InvalidMxFormat(String),
    InvalidMxPriority(ParseIntError),
    InvalidSrvFormat(String),
    InvalidSrvValue(ParseIntError),
    InvalidTlsaFormat(String),
    InvalidTlsaValue(ParseIntError),
    InvalidCaaFormat(String),
    InvalidCaaFlag(ParseIntError),
}

/// The mathematical model of a failed conversion, shared by the error types
/// of all adapters.
pub enum ConversionFailure {
    InvalidIp(AddrParseError),
    InvalidMxFormat(Seq<char>),
    InvalidMxPriority(ParseIntError),
    InvalidSrvFormat(Seq<char>),
    InvalidSrvValue(ParseIntError),
    InvalidTlsaFormat(Seq<char>),
    InvalidTlsaValue(ParseIntError),
    InvalidCaaFormat(Seq<char>),
    InvalidCaaFlag(ParseIntError),
    UnsupportedRecordType(RecordType),
}

impl View for ContentError {
    type V = ConversionFailure;

    open spec fn view(&self) -> ConversionFailure {
        match *self {
            ContentError::InvalidIp(e) => ConversionFailure::InvalidIp(e),
            ContentError::InvalidMxFormat(s) => ConversionFailure::InvalidMxFormat(s@),
            ContentError::InvalidMxPriority(e) => ConversionFailure::InvalidMxPriority(e),
            ContentError::InvalidSrvFormat(s) => ConversionFailure::InvalidSrvFormat(s@),
            ContentError::InvalidSrvValue(e) => ConversionFailure::InvalidSrvValue(e),
            ContentError::InvalidTlsaFormat(s) => ConversionFailure::InvalidTlsaFormat(s@),
            ContentError::InvalidTlsaValue(e) => ConversionFailure::InvalidTlsaValue(e),
            ContentError::InvalidCaaFormat(s) => ConversionFailure::InvalidCaaFormat(s@),
            ContentError::InvalidCaaFlag(e) => ConversionFailure::InvalidCaaFlag(e),
        }
    }
}

/// The value of an `A` record with the content `content`.
pub open spec fn a_value(content: Seq<char>) -> Result<RecordValueView, ConversionFailure> {
    match parse_ipv4(content) {
        Some(o) => Ok(RecordValueView::A(o)),
        None => Err(ConversionFailure::InvalidIp(AddrParseError::Ipv4)),
    }
}

/// The value of an `AAAA` record with the content `content`.
pub open spec fn aaaa_value(content: Seq<char>) -> Result<RecordValueView, ConversionFailure> {
    match parse_ipv6(content) {
        Some(g) => Ok(RecordValueView::AAAA(g)),
        None => Err(ConversionFailure::InvalidIp(AddrParseError::Ipv6)),
    }
}

/// The value of an `MX` record with the content `content`: a priority and a
/// target, and nothing else.
pub open spec fn mx_value(content: Seq<char>) -> Result<RecordValueView, ConversionFailure> {
    let p = whitespace_tokens(content);
    if p.len() != 2 {
        Err(ConversionFailure::InvalidMxFormat(content))
    } else {
        match parse_u16_text(p[0]) {
            Err(e) => Err(ConversionFailure::InvalidMxPriority(e)),
            Ok(priority) => Ok(RecordValueView::MX(MxRecordView { priority, target: p[1] })),
        }
    }
}

/// The value of an `SRV` record with the priority text `priority` and the
/// tokens `weight`, `port` and `target`. The first number that does not parse
/// decides the error.
pub open spec fn srv_fields_value(
    priority: Seq<char>,
    weight: Seq<char>,
    port: Seq<char>,
    target: Seq<char>,
) -> Result<RecordValueView, ConversionFailure> {
    match parse_u16_text(priority) {
        Err(e) => Err(ConversionFailure::InvalidSrvValue(e)),
        Ok(a) => match parse_u16_text(weight) {
            Err(e) => Err(ConversionFailure::InvalidSrvValue(e)),
            Ok(b) => match parse_u16_text(port) {
                Err(e) => Err(ConversionFailure::InvalidSrvValue(e)),
                Ok(c) => Ok(RecordValueView::SRV(a, b, c, target)),
            },
        },
    }
}

/// The value of an `SRV` record with the content `content`: priority, weight,
/// port and target, and nothing else.
pub open spec fn srv_value(content: Seq<char>) -> Result<RecordValueView, ConversionFailure> {
    let p = whitespace_tokens(content);
    if p.len() != 4 {
        Err(ConversionFailure::InvalidSrvFormat(content))
    } else {
        srv_fields_value(p[0], p[1], p[2], p[3])
    }
}

/// The value of a `TLSA` record with the content `content`: usage, selector,
/// matching type and certificate data, and nothing else.
pub open spec fn tlsa_value(content: Seq<char>) -> Result<RecordValueView, ConversionFailure> {
    let p = whitespace_tokens(content);
    if p.len() != 4 {
        Err(ConversionFailure::InvalidTlsaFormat(content))
    } else {
        match parse_u16_text(p[0]) {
            Err(e) => Err(ConversionFailure::InvalidTlsaValue(e)),
            Ok(a) => match parse_u16_text(p[1]) {
                Err(e) => Err(ConversionFailure::InvalidTlsaValue(e)),
                Ok(b) => match parse_u16_text(p[2]) {
                    Err(e) => Err(ConversionFailure::InvalidTlsaValue(e)),
                    Ok(c) => Ok(RecordValueView::TLSA(a, b, c, p[3])),
                },
            },
        }
    }
}

/// The value of a `CAA` record with the content `content`: flag, tag and
/// value, and nothing else.
pub open spec fn caa_value(content: Seq<char>) -> Result<RecordValueView, ConversionFailure> {
    let p = whitespace_tokens(content);
    if p.len() != 3 {
        Err(ConversionFailure::InvalidCaaFormat(content))
    } else {
        match parse_u8_text(p[0]) {
            Err(e) => Err(ConversionFailure::InvalidCaaFlag(e)),
            Ok(flag) => Ok(RecordValueView::CAA(flag, p[1], p[2])),
        }
    }
}

/// The typed value of a record of type `t` whose whole value is written in
/// `content`.
pub open spec fn content_value(t: RecordType, content: Seq<char>) -> Result<
    RecordValueView,
    ConversionFailure,
> {
    match t {
        RecordType::A => a_value(content),
        RecordType::AAAA => aaaa_value(content),
        RecordType::CNAME => Ok(RecordValueView::CNAME(content)),
        RecordType::TXT => Ok(RecordValueView::TXT(content)),
        RecordType::SPF => Ok(RecordValueView::SPF(content)),
        RecordType::NS => Ok(RecordValueView::NS(content)),
        RecordType::SOA => Ok(RecordValueView::SOA(content)),
        RecordType::MX => mx_value(content),
        RecordType::SRV => srv_value(content),
        RecordType::TLSA => tlsa_value(content),
        RecordType::CAA => caa_value(content),
    }
}

/// The model of the outcome of parsing a content.
pub open spec fn value_outcome(r: Result<RecordValue, ContentError>) -> Result<
    RecordValueView,
    ConversionFailure,
> {
    match r {
        Ok(v) => Ok(v@),
        Err(e) => Err(e@),
    }
}

/// The records of a batch of conversions: all of them in order where every
/// one succeeded, else the failure of the first that failed.
pub open spec fn collect_outcomes(outcomes: Seq<Result<RecordView, ConversionFailure>>) -> Result<
    Seq<RecordView>,
    ConversionFailure,
>
    decreases outcomes.len(),
{
    if outcomes.len() == 0 {
        Ok(Seq::empty())
    } else {
        match outcomes.last() {
            Err(e) => match collect_outcomes(outcomes.drop_last()) {
                Ok(_) => Err(e),
                Err(first) => Err(first),
            },
            Ok(v) => match collect_outcomes(outcomes.drop_last()) {
                Ok(init) => Ok(init.push(v)),
                Err(first) => Err(first),
            },
        }
    }
}

/// Once a batch has failed, the records after the failure change nothing.
pub proof fn lemma_collect_failure(outcomes: Seq<Result<RecordView, ConversionFailure>>, k: int)
    requires
        0 <= k <= outcomes.len(),
        collect_outcomes(outcomes.take(k)) is Err,
    ensures
        collect_outcomes(outcomes) == collect_outcomes(outcomes.take(k)),
    decreases outcomes.len() - k,
{
    if k < outcomes.len() {
        assert(outcomes.take(k + 1).drop_last() == outcomes.take(k));
        lemma_collect_failure(outcomes, k + 1);
    } else {
        assert(outcomes.take(k) == outcomes);
    }
}

/// Parses the content of an `A` record.
pub fn parse_a(content: &str) -> (r: Result<RecordValue, ContentError>)
    ensures
        value_outcome(r) == a_value(content@),
{
    match Ipv4Addr::parse(content) {
        Ok(ip) => Ok(RecordValue::A(ip)),
        Err(e) => Err(ContentError::InvalidIp(e)),
    }
}

/// Parses the content of an `AAAA` record.
pub fn parse_aaaa(content: &str) -> (r: Result<RecordValue, ContentError>)
    ensures
        value_outcome(r) == aaaa_value(content@),
{
    match Ipv6Addr::parse(content) {
        Ok(ip) => Ok(RecordValue::AAAA(ip)),
        Err(e) => Err(ContentError::InvalidIp(e)),
    }
}

/// Parses the content of an `MX` record.
pub fn parse_mx(content: String) -> (r: Result<RecordValue, ContentError>)
    ensures
        value_outcome(r) == mx_value(content@),
{
    let parts = split_whitespace(content.as_str());
    if parts.len() != 2 {
        return Err(ContentError::InvalidMxFormat(content));
    }
    assert(views(parts@)[0] == parts@[0]@ && views(parts@)[1] == parts@[1]@);
    let priority = match parse_u16(parts[0].as_str()) {
        Ok(n) => n,
        Err(e) => {
            return Err(ContentError::InvalidMxPriority(e));
        },
    };
    let target = parts[1].clone();
    Ok(RecordValue::MX(MxRecord { priority, target }))
}

/// Builds the value of an `SRV` record from its four fields.
pub fn parse_srv_fields(priority: &str, weight: &str, port: &str, target: &str) -> (r: Result<
    RecordValue,
    ContentError,
>)
    ensures
        value_outcome(r) == srv_fields_value(priority@, weight@, port@, target@),
{
    let priority = match parse_u16(priority) {
        Ok(n) => n,
        Err(e) => {
            return Err(ContentError::InvalidSrvValue(e));
        },
    };
    let weight = match parse_u16(weight) {
        Ok(n) => n,
        Err(e) => {
            return Err(ContentError::InvalidSrvValue(e));
        },
    };
    let port = match parse_u16(port) {
        Ok(n) => n,
        Err(e) => {
            return Err(ContentError::InvalidSrvValue(e));
        },
    };
    Ok(RecordValue::SRV(priority, weight, port, target.to_owned()))
}

/// Parses the content of an `SRV` record.
pub fn parse_srv(content: String) -> (r: Result<RecordValue, ContentError>)
    ensures
        value_outcome(r) == srv_value(content@),
{
    let parts = split_whitespace(content.as_str());
    if parts.len() != 4 {
        return Err(ContentError::InvalidSrvFormat(content));
    }
    assert(views(parts@)[0] == parts@[0]@ && views(parts@)[1] == parts@[1]@ && views(parts@)[2]
        == parts@[2]@ && views(parts@)[3] == parts@[3]@);
    parse_srv_fields(
        parts[0].as_str(),
        parts[1].as_str(),
        parts[2].as_str(),
        parts[3].as_str(),
    )
}

/// Parses the content of a `TLSA` record.
pub fn parse_tlsa(content: String) -> (r: Result<RecordValue, ContentError>)
    ensures
        value_outcome(r) == tlsa_value(content@),
{
    let parts = split_whitespace(content.as_str());
    if parts.len() != 4 {
        return Err(ContentError::InvalidTlsaFormat(content));
    }
    assert(views(parts@)[0] == parts@[0]@ && views(parts@)[1] == parts@[1]@ && views(parts@)[2]
        == parts@[2]@ && views(parts@)[3] == parts@[3]@);
    let usage = match parse_u16(parts[0].as_str()) {
        Ok(n) => n,
        Err(e) => {
            return Err(ContentError::InvalidTlsaValue(e));
        },
    };
    let selector = match parse_u16(parts[1].as_str()) {
        Ok(n) => n,
        Err(e) => {
            return Err(ContentError::InvalidTlsaValue(e));
        },
    };
    let matching_type = match parse_u16(parts[2].as_str()) {
        Ok(n) => n,
        Err(e) => {
            return Err(ContentError::InvalidTlsaValue(e));
        },
    };
    let cert_data = parts[3].clone();
    Ok(RecordValue::TLSA(usage, selector, matching_type, cert_data))
}

/// Parses the content of a `CAA` record.
pub fn parse_caa(content: String) -> (r: Result<RecordValue, ContentError>)
    ensures
        value_outcome(r) == caa_value(content@),
{
    let parts = split_whitespace(content.as_str());
    if parts.len() != 3 {
        return Err(ContentError::InvalidCaaFormat(content));
    }
    assert(views(parts@)[0] == parts@[0]@ && views(parts@)[1] == parts@[1]@ && views(parts@)[2]
        == parts@[2]@);
    let flag = match parse_u8(parts[0].as_str()) {
        Ok(n) => n,
        Err(e) => {
            return Err(ContentError::InvalidCaaFlag(e));
        },
    };
    let tag = parts[1].clone();
    let value = parts[2].clone();
    Ok(RecordValue::CAA(flag, tag, value))
}

/// Parses the content of a record of type `record_type` into its typed
/// value. Nothing is returned for a content that does not fit in full.
pub fn parse_content(record_type: RecordType, content: String) -> (r: Result<
    RecordValue,
    ContentError,
>)
    ensures
        value_outcome(r) == content_value(record_type, content@),
{
    match record_type {
        RecordType::A => parse_a(content.as_str()),
        RecordType::AAAA => parse_aaaa(content.as_str()),
        RecordType::CNAME => Ok(RecordValue::CNAME(content)),
        RecordType::TXT => Ok(RecordValue::TXT(content)),
        RecordType::SPF => Ok(RecordValue::SPF(content)),
        RecordType::NS => Ok(RecordValue::NS(content)),
        RecordType::SOA => Ok(RecordValue::SOA(content)),
        RecordType::MX => parse_mx(content),
        RecordType::SRV => parse_srv(content),
        RecordType::TLSA => parse_tlsa(content),
        RecordType::CAA => parse_caa(content),
    }
}

/// The text of an IPv4 address, taken as the content of an `A` record, gives
/// that address back.
pub proof fn lemma_a_content_round_trip(ip: Ipv4Addr)
    ensures
        content_value(RecordType::A, ipv4_text(ip@)) == Ok::<RecordValueView, ConversionFailure>(
            RecordValueView::A(ip@),
        ),
{
    lemma_ipv4_round_trip(ip@);
}

/// The text of an IPv6 address, taken as the content of an `AAAA` record,
/// gives that address back.
pub proof fn lemma_aaaa_content_round_trip(ip: Ipv6Addr)
    ensures
        content_value(RecordType::AAAA, ipv6_text(ip@)) == Ok::<
            RecordValueView,
            ConversionFailure,
        >(RecordValueView::AAAA(ip@)),
{
    lemma_ipv6_round_trip(ip@);
}

/// A content with the wrong number of tokens for its type is refused as
/// badly formed, and gives no value.
pub proof fn lemma_wrong_token_count(t: RecordType, content: Seq<char>)
    ensures
        t == RecordType::MX && whitespace_tokens(content).len() != 2 ==> content_value(t, content)
            == Err::<RecordValueView, ConversionFailure>(
            ConversionFailure::InvalidMxFormat(content),
        ),
        t == RecordType::SRV && whitespace_tokens(content).len() != 4 ==> content_value(t, content)
            == Err::<RecordValueView, ConversionFailure>(
            ConversionFailure::InvalidSrvFormat(content),
        ),
        t == RecordType::TLSA && whitespace_tokens(content).len() != 4 ==> content_value(
            t,
            content,
        ) == Err::<RecordValueView, ConversionFailure>(
            ConversionFailure::InvalidTlsaFormat(content),
        ),
        t == RecordType::CAA && whitespace_tokens(content).len() != 3 ==> content_value(t, content)
            == Err::<RecordValueView, ConversionFailure>(
            ConversionFailure::InvalidCaaFormat(content),
        ),
{
}

/// Whether `s` is a token: not empty, and without whitespace.
pub open spec fn is_token(s: Seq<char>) -> bool {
    s.len() > 0 && forall|j: int| 0 <= j < s.len() ==> !is_whitespace(#[trigger] s[j])
}

/// The texts in a value that was made of several fields are whole tokens of
/// the content: none is empty, none holds whitespace.
pub proof fn lemma_fields_are_tokens(t: RecordType, content: Seq<char>)
    ensures
        match content_value(t, content) {
            Ok(RecordValueView::MX(mx)) => is_token(mx.target),
            Ok(RecordValueView::SRV(_, _, _, target)) => is_token(target),
            Ok(RecordValueView::TLSA(_, _, _, cert_data)) => is_token(cert_data),
            Ok(RecordValueView::CAA(_, tag, value)) => is_token(tag) && is_token(value),
            _ => true,
        },
{
    let p = whitespace_tokens(content);
    match t {
        RecordType::MX => {
            if p.len() == 2 {
                lemma_tokens_hold_no_whitespace(content, 1);
            }
        },
        RecordType::SRV | RecordType::TLSA => {
            if p.len() == 4 {
                lemma_tokens_hold_no_whitespace(content, 3);
            }
        },
        RecordType::CAA => {
            if p.len() == 3 {
                lemma_tokens_hold_no_whitespace(content, 1);
                lemma_tokens_hold_no_whitespace(content, 2);
            }
        },
        _ => {},
    }
}

} // verus!
