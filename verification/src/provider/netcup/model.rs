//! The records of the Netcup API and their conversion into canonical records.
use crate::provider::content::{
    collect_outcomes, content_value, lemma_a_content_round_trip, lemma_aaaa_content_round_trip,
    lemma_collect_failure, parse_content, parse_srv_fields,
    srv_fields_value, value_outcome, ContentError, ConversionFailure,
};
use crate::text::{parse_u16, parse_u16_text, split_whitespace, views, whitespace_tokens};
use crate::text::ParseIntError;
use crate::types::dns;
use crate::types::dns::{
    record_views, MxRecord, MxRecordView, RecordType, RecordValue, RecordValueView,
};
use crate::types::ip::{ipv4_text, ipv6_text, AddrParseError, Ipv4Addr, Ipv6Addr};
use vstd::prelude::*;

verus! {

/// A record as the Netcup API sends it. The priority of an `MX` or `SRV`
/// record stands in a field of its own, apart from `destination`; the API
/// tells no time to live.
#[derive(Debug, Clone)]
pub struct Record {
    pub id: Option<String>,
    pub hostname: String,
    pub type_: RecordType,
    pub priority: Option<String>,
    pub destination: String,
    pub deleterecord: Option<bool>,
    pub state: Option<String>,
}

/// The mathematical model of a [`Record`].
pub struct RecordView {
    pub id: Option<Seq<char>>,
    pub hostname: Seq<char>,
    pub type_: RecordType,
    pub priority: Option<Seq<char>>,
    pub destination: Seq<char>,
    pub deleterecord: Option<bool>,
    pub state: Option<Seq<char>>,
}

/// The view of a text that may be missing.
pub open spec fn text_view(o: Option<String>) -> Option<Seq<char>> {
    match o {
        Some(s) => Some(s@),
        None => None,
    }
}

impl View for Record {
    type V = RecordView;

    open spec fn view(&self) -> RecordView {
        RecordView {
            id: text_view(self.id),
            hostname: self.hostname@,
            type_: self.type_,
            priority: text_view(self.priority),
            destination: self.destination@,
            deleterecord: self.deleterecord,
            state: text_view(self.state),
        }
    }
}

/// Why a Netcup record has no canonical form.
#[derive(Debug, Clone)]
pub enum TryFromRecordError {
    InvalidIp(AddrParseError),
    InvalidMxFormat(String),
    InvalidMxPriority(ParseIntError),
    InvalidSrvFormat(String),
    InvalidSrvValue(ParseIntError),
    InvalidTlsaFormat(String),
    InvalidTlsaValue(ParseIntError),
    InvalidCaaFormat(String),
    InvalidCaaFlag(ParseIntError),
}

impl View for TryFromRecordError {
    type V = ConversionFailure;

    open spec fn view(&self) -> ConversionFailure {
        match *self {
            TryFromRecordError::InvalidIp(e) => ConversionFailure::InvalidIp(e),
            TryFromRecordError::InvalidMxFormat(s) => ConversionFailure::InvalidMxFormat(s@),
            TryFromRecordError::InvalidMxPriority(e) => ConversionFailure::InvalidMxPriority(e),
            TryFromRecordError::InvalidSrvFormat(s) => ConversionFailure::InvalidSrvFormat(s@),
            TryFromRecordError::InvalidSrvValue(e) => ConversionFailure::InvalidSrvValue(e),
            TryFromRecordError::InvalidTlsaFormat(s) => ConversionFailure::InvalidTlsaFormat(s@),
            TryFromRecordError::InvalidTlsaValue(e) => ConversionFailure::InvalidTlsaValue(e),
            TryFromRecordError::InvalidCaaFormat(s) => ConversionFailure::InvalidCaaFormat(s@),
            TryFromRecordError::InvalidCaaFlag(e) => ConversionFailure::InvalidCaaFlag(e),
        }
    }
}

impl TryFromRecordError {
    /// The same failure, as an error of this adapter.
    pub fn from_content(e: ContentError) -> (r: TryFromRecordError)
        ensures
            r@ == e@,
    {
        match e {
            ContentError::InvalidIp(e) => TryFromRecordError::InvalidIp(e),
            ContentError::InvalidMxFormat(s) => TryFromRecordError::InvalidMxFormat(s),
            ContentError::InvalidMxPriority(e) => TryFromRecordError::InvalidMxPriority(e),
            ContentError::InvalidSrvFormat(s) => TryFromRecordError::InvalidSrvFormat(s),
            ContentError::InvalidSrvValue(e) => TryFromRecordError::InvalidSrvValue(e),
            ContentError::InvalidTlsaFormat(s) => TryFromRecordError::InvalidTlsaFormat(s),
            ContentError::InvalidTlsaValue(e) => TryFromRecordError::InvalidTlsaValue(e),
            ContentError::InvalidCaaFormat(s) => TryFromRecordError::InvalidCaaFormat(s),
            ContentError::InvalidCaaFlag(e) => TryFromRecordError::InvalidCaaFlag(e),
        }
    }
}

/// The value of an `MX` record whose priority stands in `priority` and
/// whose target is all of `destination`.
pub open spec fn mx_value(priority: Option<Seq<char>>, destination: Seq<char>) -> Result<
    RecordValueView,
    ConversionFailure,
> {
    match priority {
        None => Err(ConversionFailure::InvalidMxFormat("MX record missing priority"@)),
        Some(p) => match parse_u16_text(p) {
            Err(e) => Err(ConversionFailure::InvalidMxPriority(e)),
            Ok(priority) => Ok(
                RecordValueView::MX(MxRecordView { priority, target: destination }),
            ),
        },
    }
}

/// The value of an `SRV` record whose priority stands in `priority` and whose
/// `destination` holds weight, port and target, and nothing else.
pub open spec fn srv_value(priority: Option<Seq<char>>, destination: Seq<char>) -> Result<
    RecordValueView,
    ConversionFailure,
> {
    let p = whitespace_tokens(destination);
    if p.len() != 3 {
        Err(ConversionFailure::InvalidSrvFormat(destination))
    } else {
        match priority {
            None => Err(ConversionFailure::InvalidSrvFormat("SRV record missing priority"@)),
            Some(first) => srv_fields_value(first, p[0], p[1], p[2]),
        }
    }
}

/// The typed value of the Netcup record `r`.
pub open spec fn record_value(r: RecordView) -> Result<RecordValueView, ConversionFailure> {
    match r.type_ {
        RecordType::MX => mx_value(r.priority, r.destination),
        RecordType::SRV => srv_value(r.priority, r.destination),
        _ => content_value(r.type_, r.destination),
    }
}

/// The canonical record that the Netcup record `r` stands for: its host
/// name and its typed value; the time to live is unknown.
pub open spec fn converted(r: RecordView) -> Result<dns::RecordView, ConversionFailure> {
    match record_value(r) {
        Ok(value) => Ok(dns::RecordView { domain: r.hostname, value, ttl: None }),
        Err(e) => Err(e),
    }
}

/// Builds the value of an `MX` record from the priority field and the
/// destination.
pub fn parse_mx(priority: Option<String>, destination: String) -> (r: Result<
    RecordValue,
    ContentError,
>)
    ensures
        value_outcome(r) == mx_value(text_view(priority), destination@),
{
    let text = match priority {
        Some(text) => text,
        None => {
            return Err(ContentError::InvalidMxFormat("MX record missing priority".to_string()));
        },
    };
    match parse_u16(text.as_str()) {
        Ok(priority) => Ok(RecordValue::MX(MxRecord { priority, target: destination })),
        Err(e) => Err(ContentError::InvalidMxPriority(e)),
    }
}

/// Builds the value of an `SRV` record from the priority field and the
/// destination.
pub fn parse_srv(priority: Option<String>, destination: String) -> (r: Result<
    RecordValue,
    ContentError,
>)
    ensures
        value_outcome(r) == srv_value(text_view(priority), destination@),
{
    let parts = split_whitespace(destination.as_str());
    if parts.len() != 3 {
        return Err(ContentError::InvalidSrvFormat(destination));
    }
    assert(views(parts@)[0] == parts@[0]@ && views(parts@)[1] == parts@[1]@ && views(parts@)[2]
        == parts@[2]@);
    let first = match priority {
        Some(text) => text,
        None => {
            return Err(ContentError::InvalidSrvFormat("SRV record missing priority".to_string()));
        },
    };
    parse_srv_fields(first.as_str(), parts[0].as_str(), parts[1].as_str(), parts[2].as_str())
}

/// A Netcup record of type `SRV`, `TLSA` or `CAA` whose destination has the
/// wrong number of tokens is refused as badly formed: no record comes of it.
/// (An `MX` record has no such rule: its destination is its target, whole.)
pub proof fn lemma_wrong_token_count(r: RecordView)
    ensures
        r.type_ == RecordType::SRV && whitespace_tokens(r.destination).len() != 3 ==> converted(r)
            == Err::<dns::RecordView, ConversionFailure>(
            ConversionFailure::InvalidSrvFormat(r.destination),
        ),
        r.type_ == RecordType::TLSA && whitespace_tokens(r.destination).len() != 4 ==> converted(
            r,
        ) == Err::<dns::RecordView, ConversionFailure>(
            ConversionFailure::InvalidTlsaFormat(r.destination),
        ),
        r.type_ == RecordType::CAA && whitespace_tokens(r.destination).len() != 3 ==> converted(r)
            == Err::<dns::RecordView, ConversionFailure>(
            ConversionFailure::InvalidCaaFormat(r.destination),
        ),
{
}

/// A Netcup record of type `A` or `AAAA` whose destination is the text of
/// an address becomes the record of that address.
pub proof fn lemma_address_round_trip(r: RecordView, v4: Ipv4Addr, v6: Ipv6Addr)
    ensures
        r.type_ == RecordType::A && r.destination == ipv4_text(v4@) ==> (converted(r) matches Ok(
            record,
        ) && record.value == RecordValueView::A(v4@)),
        r.type_ == RecordType::AAAA && r.destination == ipv6_text(v6@) ==> (converted(
            r,
        ) matches Ok(record) && record.value == RecordValueView::AAAA(v6@)),
{
    lemma_a_content_round_trip(v4);
    lemma_aaaa_content_round_trip(v6);
}

/// The canonical records that the Netcup records `records` stand for.
pub open spec fn converted_each(records: Seq<Record>) -> Seq<
    Result<dns::RecordView, ConversionFailure>,
> {
    Seq::new(records.len(), |i: int| converted(records[i]@))
}

/// The model of the outcome of one conversion.
pub open spec fn record_outcome(r: Result<dns::Record, TryFromRecordError>) -> Result<
    dns::RecordView,
    ConversionFailure,
> {
    match r {
        Ok(v) => Ok(v@),
        Err(e) => Err(e@),
    }
}

/// The model of the outcome of converting a batch.
pub open spec fn batch_outcome(r: Result<Vec<dns::Record>, TryFromRecordError>) -> Result<
    Seq<dns::RecordView>,
    ConversionFailure,
> {
    match r {
        Ok(v) => Ok(record_views(v@)),
        Err(e) => Err(e@),
    }
}

impl TryFrom<Record> for dns::Record {
    type Error = TryFromRecordError;

    /// Converts a record of the Netcup API into its canonical form.
    fn try_from(api_record: Record) -> (r: Result<dns::Record, TryFromRecordError>)
        ensures
            record_outcome(r) == converted(api_record@),
    {
        let parsed = match api_record.type_ {
            RecordType::MX => parse_mx(api_record.priority, api_record.destination),
            RecordType::SRV => parse_srv(api_record.priority, api_record.destination),
            _ => parse_content(api_record.type_, api_record.destination),
        };
        match parsed {
            Ok(value) => Ok(dns::Record { domain: api_record.hostname, value, ttl: None }),
            Err(e) => Err(TryFromRecordError::from_content(e)),
        }
    }
}

impl vstd::std_specs::convert::TryFromSpecImpl<Record> for dns::Record {
    /// The conversion is specified over views, by the contract of `try_from`.
    open spec fn obeys_try_from_spec() -> bool {
        false
    }

    open spec fn try_from_spec(api_record: Record) -> Result<dns::Record, TryFromRecordError> {
        arbitrary()
    }
}

/// The answer of the Netcup API to a request for the records of a zone.
#[derive(Debug, Clone)]
pub struct GetRecordsResponse {
    pub records: Vec<Record>,
}

impl TryFrom<GetRecordsResponse> for Vec<dns::Record> {
    type Error = TryFromRecordError;

    /// Converts every record of the answer, in order. The first record that
    /// has no canonical form fails the whole batch.
    fn try_from(response: GetRecordsResponse) -> (r: Result<Vec<dns::Record>, TryFromRecordError>)
        ensures
            batch_outcome(r) == collect_outcomes(converted_each(response.records@)),
    {
        let ghost outcomes = converted_each(response.records@);
        let mut out: Vec<dns::Record> = Vec::new();
        assert(outcomes.take(0) == Seq::<Result<dns::RecordView, ConversionFailure>>::empty());
        assert(record_views(out@) == Seq::<dns::RecordView>::empty());
        for api_record in it: response.records.into_iter()
            invariant
                it.seq() == response.records@,
                outcomes == converted_each(response.records@),
                collect_outcomes(outcomes.take(it.index() as int)) == Ok::<
                    Seq<dns::RecordView>,
                    ConversionFailure,
                >(record_views(out@)),
        {
            let ghost i = it.index() as int;
            assert(outcomes.take(i + 1).drop_last() == outcomes.take(i));
            assert(outcomes.take(i + 1).last() == converted(api_record@));
            match dns::Record::try_from(api_record) {
                Ok(record) => {
                    assert(record_views(out@.push(record)) == record_views(out@).push(record@));
                    out.push(record);
                },
                Err(e) => {
                    proof {
                        lemma_collect_failure(outcomes, i + 1);
                    }
                    return Err(e);
                },
            }
        }
        assert(outcomes.take(outcomes.len() as int) == outcomes);
        Ok(out)
    }
}

impl vstd::std_specs::convert::TryFromSpecImpl<GetRecordsResponse> for Vec<dns::Record> {
    /// The conversion is specified over views, by the contract of `try_from`.
    open spec fn obeys_try_from_spec() -> bool {
        false
    }

    open spec fn try_from_spec(response: GetRecordsResponse) -> Result<
        Vec<dns::Record>,
        TryFromRecordError,
    > {
        arbitrary()
    }
}

} // verus!
