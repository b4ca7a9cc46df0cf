//! Resource records as the resolver sees them: a type, a time to live and the
//! record's data.

use vstd::prelude::*;
use vstd::std_specs::convert::FromSpecImpl;

verus! {

/// The type of a resource record, or of the records a query asks for.
#[derive(Debug, PartialEq, Eq, Hash, Copy, Clone, Structural)]
#[allow(dead_code)]
pub enum RecordType {
    /// IPv4 address
    A,
    /// IPv6 address
    AAAA,
    /// All cached records
    ANY,
    /// Authoritative zone transfer
    AXFR,
    /// Canonical name
    CNAME,
    /// Incremental zone transfer
    IXFR,
    /// Mail exchange
    MX,
    /// Name server
    NS,
    /// Null record
    NULL,
    /// Option pseudo-record of EDNS
    OPT,
    /// Pointer
    PTR,
    /// Start of authority
    SOA,
    /// Service locator
    SRV,
    /// Text
    TXT,
}

impl RecordType {
    /// The number of a record type on the wire.
    pub open spec fn code(self) -> u16 {
        match self {
            RecordType::A => 1,
            RecordType::AAAA => 28,
            RecordType::ANY => 255,
            RecordType::AXFR => 252,
            RecordType::CNAME => 5,
            RecordType::IXFR => 251,
            RecordType::MX => 15,
            RecordType::NS => 2,
            RecordType::NULL => 10,
            RecordType::OPT => 41,
            RecordType::PTR => 12,
            RecordType::SOA => 6,
            RecordType::SRV => 33,
            RecordType::TXT => 16,
        }
    }
}

/// Convert from RecordType to u16
impl From<RecordType> for u16 {
    fn from(rt: RecordType) -> (value: Self) {
        match rt {
            RecordType::A => 1,
            RecordType::AAAA => 28,
            RecordType::ANY => 255,
            RecordType::AXFR => 252,
            RecordType::CNAME => 5,
            RecordType::IXFR => 251,
            RecordType::MX => 15,
            RecordType::NS => 2,
            RecordType::NULL => 10,
            RecordType::OPT => 41,
            RecordType::PTR => 12,
            RecordType::SOA => 6,
            RecordType::SRV => 33,
            RecordType::TXT => 16,
        }
    }
}

impl FromSpecImpl<RecordType> for u16 {
    open spec fn obeys_from_spec() -> bool {
        true
    }

    open spec fn from_spec(rt: RecordType) -> u16 {
        rt.code()
    }
}

/// The data of a start-of-authority record.
#[derive(Debug, PartialEq, Eq, Clone)]
pub struct SOA {
    pub mname: String,
    pub rname: String,
    pub serial: u32,
    pub refresh: i32,
    pub retry: i32,
    pub expire: i32,
    pub minimum: u32,
}

impl SOA {
    pub fn new(
        mname: String,
        rname: String,
        serial: u32,
        refresh: i32,
        retry: i32,
        expire: i32,
        minimum: u32,
    ) -> (soa: Self)
        ensures
            soa == (SOA { mname, rname, serial, refresh, retry, expire, minimum }),
    {
        SOA { mname, rname, serial, refresh, retry, expire, minimum }
    }

    /// The minimum field: for how many seconds a negative answer from this
    /// zone may be cached.
    pub fn minimum(&self) -> (ttl: u32)
        ensures
            ttl == self.minimum,
    {
        self.minimum
    }
}

/// The data of one resource record.
#[derive(Debug, PartialEq, Eq, Clone)]
pub enum RData {
    /// An IPv4 address, as its four octets
    A([u8; 4]),
    /// An IPv6 address, as its sixteen octets
    AAAA([u8; 16]),
    /// The canonical name of an alias
    CNAME(String),
    /// A mail exchange and its preference
    MX { preference: u16, exchange: String },
    /// An authoritative name server
    NS(String),
    /// Anything at all
    NULL(Vec<u8>),
    /// A name somewhere else in the name space
    PTR(String),
    /// The start of a zone of authority
    SOA(SOA),
    /// The location of a service
    SRV { priority: u16, weight: u16, port: u16, target: String },
    /// Text strings
    TXT(Vec<String>),
}

/// One resource record of a response.
///
/// The type is held apart from the data: nothing here makes a record's data
/// be of the kind that its type names.
#[derive(Debug, PartialEq, Eq, Clone)]
pub struct Record {
    pub rr_type: RecordType,
    pub ttl: u32,
    pub rdata: RData,
}

impl Record {
    pub fn from_rdata(ttl: u32, rr_type: RecordType, rdata: RData) -> (record: Self)
        ensures
            record == (Record { rr_type, ttl, rdata }),
    {
        Record { rr_type, ttl, rdata }
    }

    pub fn rr_type(&self) -> (rr_type: RecordType)
        ensures
            rr_type == self.rr_type,
    {
        self.rr_type
    }

    /// For how many seconds the record may be cached.
    pub fn ttl(&self) -> (ttl: u32)
        ensures
            ttl == self.ttl,
    {
        self.ttl
    }

    pub fn rdata(&self) -> (rdata: &RData)
        ensures
            *rdata == self.rdata,
    {
        &self.rdata
    }

    /// Gives up the record for its data.
    pub fn unwrap_rdata(self) -> (rdata: RData)
        ensures
            rdata == self.rdata,
    {
        self.rdata
    }
}

} // verus!
