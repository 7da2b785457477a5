//! The records of the Hetzner API and their conversion into canonical records.
use crate::provider::content::{
    collect_outcomes, content_value, lemma_a_content_round_trip, lemma_aaaa_content_round_trip,
    lemma_collect_failure, parse_content, ContentError, ConversionFailure,
};
use crate::text::{whitespace_tokens, ParseIntError};
use crate::types::dns;
use crate::types::dns::{record_views, RecordType, RecordValueView};
use crate::types::ip::{ipv4_text, ipv6_text, AddrParseError, Ipv4Addr, Ipv6Addr};
use vstd::prelude::*;

verus! {

/// A record as the Hetzner API sends it. The whole value is written in
/// `value`.
#[derive(Debug, Clone)]
pub struct Record {
    pub type_: RecordType,
    pub id: String,
    pub created: String,
    pub modified: String,
    pub zone_id: String,
    pub name: String,
    pub value: String,
    pub ttl: Option<u32>,
}

/// The mathematical model of a [`Record`].
pub struct RecordView {
    pub type_: RecordType,
    pub id: Seq<char>,
    pub created: Seq<char>,
    pub modified: Seq<char>,
    pub zone_id: Seq<char>,
    pub name: Seq<char>,
    pub value: Seq<char>,
    pub ttl: Option<u32>,
}

impl View for Record {
    type V = RecordView;

    open spec fn view(&self) -> RecordView {
        RecordView {
            type_: self.type_,
            id: self.id@,
            created: self.created@,
            modified: self.modified@,
            zone_id: self.zone_id@,
            name: self.name@,
            value: self.value@,
            ttl: self.ttl,
        }
    }
}

/// Why a Hetzner record has no canonical form.
#[derive(Debug, Clone)]
pub enum TryFromRecordError {
    InvalidIp(AddrParseError),
    InvalidMxFormat(String),
    InvalidMxPriority(ParseIntError),
    InvalidSrvFormat(String),
    InvalidSrvValue(ParseIntError),
    InvalidTlsaFormat(String),
    InvalidTlsaValue(ParseIntError),
    InvalidCaaFormat(String),
    InvalidCaaFlag(ParseIntError),
}

impl View for TryFromRecordError {
    type V = ConversionFailure;

    open spec fn view(&self) -> ConversionFailure {
        match *self {
            TryFromRecordError::InvalidIp(e) => ConversionFailure::InvalidIp(e),
            TryFromRecordError::InvalidMxFormat(s) => ConversionFailure::InvalidMxFormat(s@),
            TryFromRecordError::InvalidMxPriority(e) => ConversionFailure::InvalidMxPriority(e),
            TryFromRecordError::InvalidSrvFormat(s) => ConversionFailure::InvalidSrvFormat(s@),
            TryFromRecordError::InvalidSrvValue(e) => ConversionFailure::InvalidSrvValue(e),
            TryFromRecordError::InvalidTlsaFormat(s) => ConversionFailure::InvalidTlsaFormat(s@),
            TryFromRecordError::InvalidTlsaValue(e) => ConversionFailure::InvalidTlsaValue(e),
            TryFromRecordError::InvalidCaaFormat(s) => ConversionFailure::InvalidCaaFormat(s@),
            TryFromRecordError::InvalidCaaFlag(e) => ConversionFailure::InvalidCaaFlag(e),
        }
    }
}

impl TryFromRecordError {
    /// The same failure, as an error of this adapter.
    pub fn from_content(e: ContentError) -> (r: TryFromRecordError)
        ensures
            r@ == e@,
    {
        match e {
            ContentError::InvalidIp(e) => TryFromRecordError::InvalidIp(e),
            ContentError::InvalidMxFormat(s) => TryFromRecordError::InvalidMxFormat(s),
            ContentError::InvalidMxPriority(e) => TryFromRecordError::InvalidMxPriority(e),
            ContentError::InvalidSrvFormat(s) => TryFromRecordError::InvalidSrvFormat(s),
            ContentError::InvalidSrvValue(e) => TryFromRecordError::InvalidSrvValue(e),
            ContentError::InvalidTlsaFormat(s) => TryFromRecordError::InvalidTlsaFormat(s),
            ContentError::InvalidTlsaValue(e) => TryFromRecordError::InvalidTlsaValue(e),
            ContentError::InvalidCaaFormat(s) => TryFromRecordError::InvalidCaaFormat(s),
            ContentError::InvalidCaaFlag(e) => TryFromRecordError::InvalidCaaFlag(e),
        }
    }
}

/// The canonical record that the Hetzner record `r` stands for: its name,
/// the typed value of its content, and its time to live.
pub open spec fn converted(r: RecordView) -> Result<dns::RecordView, ConversionFailure> {
    match content_value(r.type_, r.value) {
        Ok(value) => Ok(dns::RecordView { domain: r.name, value, ttl: r.ttl }),
        Err(e) => Err(e),
    }
}

/// A Hetzner record of a type with several fields whose content has the
/// wrong number of tokens is refused as badly formed: no record comes of it.
pub proof fn lemma_wrong_token_count(r: RecordView)
    ensures
        r.type_ == RecordType::MX && whitespace_tokens(r.value).len() != 2 ==> converted(r)
            == Err::<dns::RecordView, ConversionFailure>(
            ConversionFailure::InvalidMxFormat(r.value),
        ),
        r.type_ == RecordType::SRV && whitespace_tokens(r.value).len() != 4 ==> converted(r)
            == Err::<dns::RecordView, ConversionFailure>(
            ConversionFailure::InvalidSrvFormat(r.value),
        ),
        r.type_ == RecordType::TLSA && whitespace_tokens(r.value).len() != 4 ==> converted(r)
            == Err::<dns::RecordView, ConversionFailure>(
            ConversionFailure::InvalidTlsaFormat(r.value),
        ),
        r.type_ == RecordType::CAA && whitespace_tokens(r.value).len() != 3 ==> converted(r)
            == Err::<dns::RecordView, ConversionFailure>(
            ConversionFailure::InvalidCaaFormat(r.value),
        ),
{
}

/// A Hetzner record of type `A` or `AAAA` whose content is the text of an
/// address becomes the record of that address.
pub proof fn lemma_address_round_trip(r: RecordView, v4: Ipv4Addr, v6: Ipv6Addr)
    ensures
        r.type_ == RecordType::A && r.value == ipv4_text(v4@) ==> (converted(r) matches Ok(
            record,
        ) && record.value == RecordValueView::A(v4@)),
        r.type_ == RecordType::AAAA && r.value == ipv6_text(v6@) ==> (converted(r) matches Ok(
            record,
        ) && record.value == RecordValueView::AAAA(v6@)),
{
    lemma_a_content_round_trip(v4);
    lemma_aaaa_content_round_trip(v6);
}

/// The canonical records that the Hetzner records `records` stand for.
pub open spec fn converted_each(records: Seq<Record>) -> Seq<
    Result<dns::RecordView, ConversionFailure>,
> {
    Seq::new(records.len(), |i: int| converted(records[i]@))
}

/// The model of the outcome of one conversion.
pub open spec fn record_outcome(r: Result<dns::Record, TryFromRecordError>) -> Result<
    dns::RecordView,
    ConversionFailure,
> {
    match r {
        Ok(v) => Ok(v@),
        Err(e) => Err(e@),
    }
}

/// The model of the outcome of converting a batch.
pub open spec fn batch_outcome(r: Result<Vec<dns::Record>, TryFromRecordError>) -> Result<
    Seq<dns::RecordView>,
    ConversionFailure,
> {
    match r {
        Ok(v) => Ok(record_views(v@)),
        Err(e) => Err(e@),
    }
}

impl TryFrom<Record> for dns::Record {
    type Error = TryFromRecordError;

    /// Converts a record of the Hetzner API into its canonical form.
    fn try_from(api_record: Record) -> (r: Result<dns::Record, TryFromRecordError>)
        ensures
            record_outcome(r) == converted(api_record@),
    {
        let value = match parse_content(api_record.type_, api_record.value) {
            Ok(value) => value,
            Err(e) => {
                return Err(TryFromRecordError::from_content(e));
            },
        };
        Ok(dns::Record { domain: api_record.name, value, ttl: api_record.ttl })
    }
}

impl vstd::std_specs::convert::TryFromSpecImpl<Record> for dns::Record {
    /// The conversion is specified over views, by the contract of `try_from`.
    open spec fn obeys_try_from_spec() -> bool {
        false
    }

    open spec fn try_from_spec(api_record: Record) -> Result<dns::Record, TryFromRecordError> {
        arbitrary()
    }
}

/// The answer of the Hetzner API to a request for the records of a zone.
#[derive(Debug, Clone)]
pub struct GetRecordsResponse {
    pub records: Vec<Record>,
}

impl TryFrom<GetRecordsResponse> for Vec<dns::Record> {
    type Error = TryFromRecordError;

    /// Converts every record of the answer, in order. The first record that
    /// has no canonical form fails the whole batch.
    fn try_from(response: GetRecordsResponse) -> (r: Result<Vec<dns::Record>, TryFromRecordError>)
        ensures
            batch_outcome(r) == collect_outcomes(converted_each(response.records@)),
    {
        let ghost outcomes = converted_each(response.records@);
        let mut out: Vec<dns::Record> = Vec::new();
        assert(outcomes.take(0) == Seq::<Result<dns::RecordView, ConversionFailure>>::empty());
        assert(record_views(out@) == Seq::<dns::RecordView>::empty());
        for api_record in it: response.records.into_iter()
            invariant
                it.seq() == response.records@,
                outcomes == converted_each(response.records@),
                collect_outcomes(outcomes.take(it.index() as int)) == Ok::<
                    Seq<dns::RecordView>,
                    ConversionFailure,
                >(record_views(out@)),
        {
            let ghost i = it.index() as int;
            assert(outcomes.take(i + 1).drop_last() == outcomes.take(i));
            assert(outcomes.take(i + 1).last() == converted(api_record@));
            match dns::Record::try_from(api_record) {
                Ok(record) => {
                    assert(record_views(out@.push(record)) == record_views(out@).push(record@));
                    out.push(record);
                },
                Err(e) => {
                    proof {
                        lemma_collect_failure(outcomes, i + 1);
                    }
                    return Err(e);
                },
            }
        }
        assert(outcomes.take(outcomes.len() as int) == outcomes);
        Ok(out)
    }
}

impl vstd::std_specs::convert::TryFromSpecImpl<GetRecordsResponse> for Vec<dns::Record> {
    /// The conversion is specified over views, by the contract of `try_from`.
    open spec fn obeys_try_from_spec() -> bool {
        false
    }

    open spec fn try_from_spec(response: GetRecordsResponse) -> Result<
        Vec<dns::Record>,
        TryFromRecordError,
    > {
        arbitrary()
    }
}

} // verus!
