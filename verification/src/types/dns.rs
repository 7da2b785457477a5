//! The canonical, provider-independent DNS record.
use crate::types::ip::{Ipv4Addr, Ipv6Addr};
use vstd::prelude::*;

verus! {

/// The payload of an `MX` record.
#[derive(Debug, Clone)]
pub struct MxRecord {
    pub priority: u16,
    pub target: String,
}

/// The typed value of a DNS record. The variant fixes the shape of the
/// payload; a value exists only once its text has been parsed in full.
#[derive(Debug, Clone)]
pub enum RecordValue {
    A(Ipv4Addr),
    AAAA(Ipv6Addr),
    CNAME(String),
    TXT(String),
    SPF(String),
    MX(MxRecord),
    NS(String),
    SOA(String),
    SRV(u16, u16, u16, String),
    TLSA(u16, u16, u16, String),
    CAA(u8, String, String),
}

/// A DNS record: a name, a typed value and, where the provider tells it, a
/// time to live. `ttl` is `None` where it is unknown.
#[derive(Debug, Clone)]
pub struct Record {
    pub domain: String,
    pub value: RecordValue,
    pub ttl: Option<u32>,
}

/// The type of a record as providers transmit it, apart from its content.
#[derive(Debug, Clone, Copy, PartialEq, Eq, Structural)]
pub enum RecordType {
    A,
    AAAA,
    CNAME,
    TXT,
    SPF,
    MX,
    NS,
    SOA,
    SRV,
    TLSA,
    CAA,
}

/// The mathematical model of an [`MxRecord`].
pub struct MxRecordView {
    pub priority: u16,
    pub target: Seq<char>,
}

/// The mathematical model of a [`RecordValue`].
pub enum RecordValueView {
    A(Seq<u8>),
    AAAA(Seq<u16>),
    CNAME(Seq<char>),
    TXT(Seq<char>),
    SPF(Seq<char>),
    MX(MxRecordView),
    NS(Seq<char>),
    SOA(Seq<char>),
    SRV(u16, u16, u16, Seq<char>),
    TLSA(u16, u16, u16, Seq<char>),
    CAA(u8, Seq<char>, Seq<char>),
}

/// The mathematical model of a [`Record`].
pub struct RecordView {
    pub domain: Seq<char>,
    pub value: RecordValueView,
    pub ttl: Option<u32>,
}

impl View for MxRecord {
    type V = MxRecordView;

    open spec fn view(&self) -> MxRecordView {
        MxRecordView { priority: self.priority, target: self.target@ }
    }
}

impl View for RecordValue {
    type V = RecordValueView;

    open spec fn view(&self) -> RecordValueView {
        match *self {
            RecordValue::A(ip) => RecordValueView::A(ip@),
            RecordValue::AAAA(ip) => RecordValueView::AAAA(ip@),
            RecordValue::CNAME(s) => RecordValueView::CNAME(s@),
            RecordValue::TXT(s) => RecordValueView::TXT(s@),
            RecordValue::SPF(s) => RecordValueView::SPF(s@),
            RecordValue::MX(mx) => RecordValueView::MX(mx@),
            RecordValue::NS(s) => RecordValueView::NS(s@),
            RecordValue::SOA(s) => RecordValueView::SOA(s@),
            RecordValue::SRV(priority, weight, port, target) => RecordValueView::SRV(
                priority,
                weight,
                port,
                target@,
            ),
            RecordValue::TLSA(usage, selector, matching_type, cert_data) => RecordValueView::TLSA(
                usage,
                selector,
                matching_type,
                cert_data@,
            ),
            RecordValue::CAA(flag, tag, value) => RecordValueView::CAA(flag, tag@, value@),
        }
    }
}

impl View for Record {
    type V = RecordView;

    open spec fn view(&self) -> RecordView {
        RecordView { domain: self.domain@, value: self.value@, ttl: self.ttl }
    }
}

impl RecordValue {
    /// The wire type that this value belongs to.
    pub fn record_type(&self) -> (t: RecordType)
        ensures
            t == type_of(self@),
    {
        match self {
            RecordValue::A(_) => RecordType::A,
            RecordValue::AAAA(_) => RecordType::AAAA,
            RecordValue::CNAME(_) => RecordType::CNAME,
            RecordValue::TXT(_) => RecordType::TXT,
            RecordValue::SPF(_) => RecordType::SPF,
            RecordValue::MX(_) => RecordType::MX,
            RecordValue::NS(_) => RecordType::NS,
            RecordValue::SOA(_) => RecordType::SOA,
            RecordValue::SRV(..) => RecordType::SRV,
            RecordValue::TLSA(..) => RecordType::TLSA,
            RecordValue::CAA(..) => RecordType::CAA,
        }
    }
}

/// The wire type that a value belongs to.
pub open spec fn type_of(v: RecordValueView) -> RecordType {
    match v {
        RecordValueView::A(_) => RecordType::A,
        RecordValueView::AAAA(_) => RecordType::AAAA,
        RecordValueView::CNAME(_) => RecordType::CNAME,
        RecordValueView::TXT(_) => RecordType::TXT,
        RecordValueView::SPF(_) => RecordType::SPF,
        RecordValueView::MX(_) => RecordType::MX,
        RecordValueView::NS(_) => RecordType::NS,
        RecordValueView::SOA(_) => RecordType::SOA,
        RecordValueView::SRV(..) => RecordType::SRV,
        RecordValueView::TLSA(..) => RecordType::TLSA,
        RecordValueView::CAA(..) => RecordType::CAA,
    }
}

/// The views of a sequence of records, in order.
pub open spec fn record_views(records: Seq<Record>) -> Seq<RecordView> {
    Seq::new(records.len(), |i: int| records[i]@)
}

} // verus!
