//! The DNS providers: what every adapter offers, and the adapters.
use crate::text::str_eq;
use crate::types::dns::{record_views, Record, RecordView};
use vstd::prelude::*;

pub mod content;
pub mod hetzner;
pub mod netcup;
pub mod nitrado;

verus! {

/// An operation that a provider may support.
#[derive(Debug, Clone, Copy, PartialEq, Eq, Structural)]
pub enum Feature {
    GetRecords,
    GetAllRecords,
    AddRecord,
    UpdateRecord,
    DeleteRecord,
}

/// A request for the records of some names of a domain.
pub struct GetRecordsInput<'input> {
    pub domain: &'input str,
    pub subdomains: Vec<&'input str>,
}

/// A request for all records of a domain.
pub struct GetAllRecordsInput<'input> {
    pub domain: &'input str,
}

impl<'input> From<GetRecordsInput<'input>> for GetAllRecordsInput<'input> {
    fn from(input: GetRecordsInput<'input>) -> (r: Self) {
        GetAllRecordsInput { domain: input.domain }
    }
}

impl<'input> vstd::std_specs::convert::FromSpecImpl<GetRecordsInput<'input>> for GetAllRecordsInput<'input> {
    open spec fn obeys_from_spec() -> bool {
        true
    }

    open spec fn from_spec(input: GetRecordsInput<'input>) -> Self {
        GetAllRecordsInput { domain: input.domain }
    }
}

impl<'input> From<&'input GetRecordsInput<'input>> for GetAllRecordsInput<'input> {
    fn from(input: &'input GetRecordsInput<'input>) -> (r: Self) {
        GetAllRecordsInput { domain: input.domain }
    }
}

impl<'input> vstd::std_specs::convert::FromSpecImpl<&'input GetRecordsInput<'input>> for GetAllRecordsInput<'input> {
    open spec fn obeys_from_spec() -> bool {
        true
    }

    open spec fn from_spec(input: &'input GetRecordsInput<'input>) -> Self {
        GetAllRecordsInput { domain: input.domain }
    }
}

/// An HTTP answer, as `reqwest` holds it.
#[verifier::external_type_specification]
#[verifier::external_body]
pub struct ExResponse(reqwest::Response);

/// An authenticated HTTP `GET`: the address to fetch and the one header
/// that carries the credentials, as name and value.
#[derive(Debug, Clone)]
pub struct Request {
    pub url: String,
    pub header_name: String,
    pub header_value: String,
}

/// An operation that an adapter does not carry out yet.
#[derive(Debug, Clone, Copy, PartialEq, Eq, Structural)]
pub struct Unimplemented(pub Feature);

/// Whether the HTTP status `status` reports success: 200 to 299.
pub open spec fn is_success(status: u16) -> bool {
    200 <= status < 300
}

/// Whether the HTTP status `status` reports success.
pub fn status_is_success(status: u16) -> (r: bool)
    ensures
        r == is_success(status),
{
    200 <= status && status < 300
}

/// The status code that `reqwest::Response::status` reads from `response`,
/// as a number. It belongs to the answer and does not change.
pub uninterp spec fn status_of(response: reqwest::Response) -> u16;

/// Calls `reqwest::Response::status` and `StatusCode::as_u16` on it: the
/// status code of the answer, which is read and not changed.
#[verifier::external_body]
pub(crate) fn response_status(response: &reqwest::Response) -> (status: u16)
    ensures
        status == status_of(*response),
{
    response.status().as_u16()
}

/// The views of a sequence of names, in order.
pub open spec fn names(v: Seq<&str>) -> Seq<Seq<char>> {
    Seq::new(v.len(), |i: int| v[i]@)
}

/// Those of `records`, in their order, whose domain is one of `subdomains`,
/// letter for letter. Nothing is merged and nothing is reordered.
pub open spec fn requested(records: Seq<RecordView>, subdomains: Seq<Seq<char>>) -> Seq<
    RecordView,
> {
    records.filter(|r: RecordView| subdomains.contains(r.domain))
}

/// The records asked for are records of the domain, and all of them were
/// asked for; no record of the domain that was asked for is left out.
pub proof fn lemma_requested_is_exact(records: Seq<RecordView>, subdomains: Seq<Seq<char>>)
    ensures
        requested(records, subdomains).len() <= records.len(),
        forall|i: int|
            0 <= i < requested(records, subdomains).len() ==> records.contains(
                #[trigger] requested(records, subdomains)[i],
            ) && subdomains.contains(requested(records, subdomains)[i].domain),
        forall|j: int|
            0 <= j < records.len() && subdomains.contains(records[j].domain) ==> requested(
                records,
                subdomains,
            ).contains(#[trigger] records[j]),
{
    let wanted = |r: RecordView| subdomains.contains(r.domain);
    let kept = records.filter(wanted);
    records.lemma_filter_len(wanted);
    assert forall|i: int| 0 <= i < kept.len() implies records.contains(#[trigger] kept[i])
        && subdomains.contains(kept[i].domain) by {
        records.lemma_filter_pred(wanted, i);
        lemma_kept_is_member(records, subdomains, i);
    }
    assert forall|j: int|
        0 <= j < records.len() && subdomains.contains(records[j].domain) implies kept.contains(
        #[trigger] records[j],
    ) by {
        records.lemma_filter_contains(wanted, j);
    }
}

/// Every record asked for is one of the records of the domain.
proof fn lemma_kept_is_member(records: Seq<RecordView>, subdomains: Seq<Seq<char>>, i: int)
    requires
        0 <= i < requested(records, subdomains).len(),
    ensures
        records.contains(requested(records, subdomains)[i]),
    decreases records.len(),
{
    reveal(Seq::filter);
    let wanted = |r: RecordView| subdomains.contains(r.domain);
    if records.len() > 0 {
        let init = records.drop_last();
        let kept = init.filter(wanted);
        if i < kept.len() {
            lemma_kept_is_member(init, subdomains, i);
            let k = choose|k: int| 0 <= k < init.len() && init[k] == kept[i];
            assert(records[k] == kept[i]);
        } else {
            assert(records[records.len() - 1] == records.last());
        }
    }
}

/// Whether `domain` is one of `subdomains`.
pub fn is_requested(subdomains: &Vec<&str>, domain: &str) -> (found: bool)
    ensures
        found == names(subdomains@).contains(domain@),
{
    let mut i: usize = 0;
    while i < subdomains.len()
        invariant
            i <= subdomains.len(),
            forall|j: int| 0 <= j < i ==> (#[trigger] names(subdomains@)[j]) != domain@,
        decreases subdomains.len() - i,
    {
        if str_eq(subdomains[i], domain) {
            assert(names(subdomains@)[i as int] == domain@);
            return true;
        }
        i += 1;
    }
    false
}

/// Keeps those of `records` whose domain is one of `subdomains`.
pub fn filter_records(records: Vec<Record>, subdomains: &Vec<&str>) -> (kept: Vec<Record>)
    ensures
        record_views(kept@) == requested(record_views(records@), names(subdomains@)),
{
    let ghost all = record_views(records@);
    let ghost wanted = |r: RecordView| names(subdomains@).contains(r.domain);
    let mut kept: Vec<Record> = Vec::new();
    proof {
        reveal(Seq::filter);
        assert(all.take(0) == Seq::<RecordView>::empty());
        assert(record_views(kept@) == all.take(0).filter(wanted));
    }
    for record in it: records.into_iter()
        invariant
            it.seq() == records@,
            all == record_views(records@),
            wanted == |r: RecordView| names(subdomains@).contains(r.domain),
            record_views(kept@) == all.take(it.index() as int).filter(wanted),
    {
        let ghost i = it.index() as int;
        proof {
            reveal(Seq::filter);
            assert(all.take(i + 1).drop_last() == all.take(i));
            assert(all.take(i + 1).last() == record@);
        }
        if is_requested(subdomains, record.domain.as_str()) {
            assert(record_views(kept@.push(record)) == record_views(kept@).push(record@));
            kept.push(record);
        }
    }
    assert(all.take(all.len() as int) == all);
    kept
}

/// All five operations, in the order of their declaration.
pub open spec fn all_features() -> Seq<Feature> {
    seq![
        Feature::GetRecords,
        Feature::GetAllRecords,
        Feature::AddRecord,
        Feature::UpdateRecord,
        Feature::DeleteRecord,
    ]
}

/// All five operations.
pub fn every_feature() -> (features: Vec<Feature>)
    ensures
        features@ == all_features(),
{
    let mut features: Vec<Feature> = Vec::new();
    features.push(Feature::GetRecords);
    features.push(Feature::GetAllRecords);
    features.push(Feature::AddRecord);
    features.push(Feature::UpdateRecord);
    features.push(Feature::DeleteRecord);
    assert(features@ =~= all_features());
    features
}

/// What every provider adapter offers. The adapters build requests and read
/// answers; sending is left to the caller.
pub trait Provider {
    /// The display name of the provider. An adapter says what its name is;
    /// of one that does not, nothing is known.
    open spec fn provider_name(&self) -> Seq<char> {
        arbitrary()
    }

    /// The operations that the provider supports. An adapter says which
    /// they are; of one that does not, nothing is known.
    open spec fn supported_features(&self) -> Seq<Feature> {
        arbitrary()
    }

    /// The display name of the provider.
    fn get_provider_name(&self) -> (name: &'static str)
        ensures
            name@ == self.provider_name(),
    ;

    /// The operations that the provider supports.
    fn get_supported_features(&self) -> (features: Vec<Feature>)
        ensures
            features@ == self.supported_features(),
    ;

    /// The first request to send for all records of the domain of `input`.
    /// An adapter that does not fetch records yet says so.
    fn all_records_request(&self, input: &GetAllRecordsInput) -> (r: Result<Request, Unimplemented>)
        ensures
            r matches Err(refusal) ==> refusal == Unimplemented(Feature::GetAllRecords),
    ;

    /// The request to send to add `record`. An adapter that does not add
    /// records yet says so.
    fn add_record(&self, record: &Record) -> (r: Result<Request, Unimplemented>)
        ensures
            r matches Err(refusal) ==> refusal == Unimplemented(Feature::AddRecord),
    ;

    /// The request to send to update `record`. An adapter that does not
    /// update records yet says so.
    fn update_record(&self, record: &Record) -> (r: Result<Request, Unimplemented>)
        ensures
            r matches Err(refusal) ==> refusal == Unimplemented(Feature::UpdateRecord),
    ;

    /// The request to send to delete `record`. An adapter that does not
    /// delete records yet says so.
    fn delete_record(&self, record: &Record) -> (r: Result<Request, Unimplemented>)
        ensures
            r matches Err(refusal) ==> refusal == Unimplemented(Feature::DeleteRecord),
    ;

    /// Whether the provider supports `feature`.
    fn is_feature_supported(&self, feature: &Feature) -> (supported: bool)
        ensures
            supported == self.supported_features().contains(*feature),
    {
        let features = self.get_supported_features();
        let mut i: usize = 0;
        while i < features.len()
            invariant
                i <= features.len(),
                features@ == self.supported_features(),
                forall|j: int| 0 <= j < i ==> features@[j] != *feature,
            decreases features.len() - i,
        {
            if features[i] == *feature {
                return true;
            }
            i += 1;
        }
        false
    }

    /// The records asked for by `input` among `all_records`, the records
    /// of the domain: those whose domain is one of the names asked for.
    fn get_records(&self, input: &GetRecordsInput, all_records: Vec<Record>) -> (records: Vec<
        Record,
    >)
        ensures
            record_views(records@) == requested(
                record_views(all_records@),
                names(input.subdomains@),
            ),
    {
        filter_records(all_records, &input.subdomains)
    }
}

/// The adapter of a configured provider: one of the three, told apart by
/// its variant.
pub enum ConfiguredProvider<'config> {
    Nitrado(nitrado::NitradoProvider<'config>),
    Hetzner(hetzner::HetznerProvider<'config>),
    Netcup(netcup::NetcupProvider<'config>),
}

impl Provider for ConfiguredProvider<'_> {
    open spec fn provider_name(&self) -> Seq<char> {
        match self {
            ConfiguredProvider::Nitrado(p) => p.provider_name(),
            ConfiguredProvider::Hetzner(p) => p.provider_name(),
            ConfiguredProvider::Netcup(p) => p.provider_name(),
        }
    }

    open spec fn supported_features(&self) -> Seq<Feature> {
        match self {
            ConfiguredProvider::Nitrado(p) => p.supported_features(),
            ConfiguredProvider::Hetzner(p) => p.supported_features(),
            ConfiguredProvider::Netcup(p) => p.supported_features(),
        }
    }

    fn get_provider_name(&self) -> (name: &'static str) {
        match self {
            ConfiguredProvider::Nitrado(p) => p.get_provider_name(),
            ConfiguredProvider::Hetzner(p) => p.get_provider_name(),
            ConfiguredProvider::Netcup(p) => p.get_provider_name(),
        }
    }

    fn get_supported_features(&self) -> (features: Vec<Feature>) {
        match self {
            ConfiguredProvider::Nitrado(p) => p.get_supported_features(),
            ConfiguredProvider::Hetzner(p) => p.get_supported_features(),
            ConfiguredProvider::Netcup(p) => p.get_supported_features(),
        }
    }

    fn all_records_request(&self, input: &GetAllRecordsInput) -> (r: Result<Request, Unimplemented>)
        ensures
            match *self {
                ConfiguredProvider::Nitrado(p) => {
                    &&& r matches Ok(request)
                    &&& request.url@ == p.records_url(input.domain@)
                    &&& request.header_name@ == "Authorization"@
                    &&& request.header_value@ == p.bearer()
                },
                ConfiguredProvider::Hetzner(p) => {
                    &&& r matches Ok(request)
                    &&& request.url@ == p.zones_url()
                    &&& request.header_name@ == "Auth-API-Token"@
                    &&& request.header_value@ == p.provider_config.api_key@
                },
                ConfiguredProvider::Netcup(_) => r == Err::<Request, Unimplemented>(
                    Unimplemented(Feature::GetAllRecords),
                ),
            },
    {
        match self {
            ConfiguredProvider::Nitrado(p) => p.all_records_request(input),
            ConfiguredProvider::Hetzner(p) => p.all_records_request(input),
            ConfiguredProvider::Netcup(p) => p.all_records_request(input),
        }
    }

    fn add_record(&self, record: &Record) -> (r: Result<Request, Unimplemented>)
        ensures
            r == Err::<Request, Unimplemented>(Unimplemented(Feature::AddRecord)),
    {
        match self {
            ConfiguredProvider::Nitrado(p) => p.add_record(record),
            ConfiguredProvider::Hetzner(p) => p.add_record(record),
            ConfiguredProvider::Netcup(p) => p.add_record(record),
        }
    }

    fn update_record(&self, record: &Record) -> (r: Result<Request, Unimplemented>)
        ensures
            r == Err::<Request, Unimplemented>(Unimplemented(Feature::UpdateRecord)),
    {
        match self {
            ConfiguredProvider::Nitrado(p) => p.update_record(record),
            ConfiguredProvider::Hetzner(p) => p.update_record(record),
            ConfiguredProvider::Netcup(p) => p.update_record(record),
        }
    }

    fn delete_record(&self, record: &Record) -> (r: Result<Request, Unimplemented>)
        ensures
            r == Err::<Request, Unimplemented>(Unimplemented(Feature::DeleteRecord)),
    {
        match self {
            ConfiguredProvider::Nitrado(p) => p.delete_record(record),
            ConfiguredProvider::Hetzner(p) => p.delete_record(record),
            ConfiguredProvider::Netcup(p) => p.delete_record(record),
        }
    }
}

} // verus!
