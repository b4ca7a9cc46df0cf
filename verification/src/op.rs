//! Queries and response messages as the resolver sees them.

use crate::dns_class::DNSClass;
use crate::rr::Record;
use crate::rr::RecordType;
use vstd::prelude::*;

verus! {

/// What identifies a query in the cache: its name, the number of its record
/// type and the number of its class.
pub type QueryKey = (Seq<char>, u16, u16);

/// The status of a response.
#[derive(Debug, PartialEq, Eq, Hash, Copy, Clone, Structural)]
#[allow(dead_code)]
pub enum ResponseCode {
    /// No error condition
    NoError,
    /// The server could not read the query
    FormErr,
    /// The server failed
    ServFail,
    /// The name does not exist
    NXDomain,
    /// The server does not do this kind of query
    NotImp,
    /// The server refuses by policy
    Refused,
    /// A name exists that should not
    YXDomain,
    /// A record set exists that should not
    YXRRSet,
    /// A record set that should exist does not
    NXRRSet,
    /// The server is not authoritative for the zone
    NotAuth,
    /// A name is not within the zone
    NotZone,
}

/// A question: which records of which name are wanted.
#[derive(Debug, PartialEq, Eq)]
pub struct Query {
    pub name: String,
    pub query_type: RecordType,
    pub query_class: DNSClass,
}

impl Clone for Query {
    fn clone(&self) -> (copy: Self)
        ensures
            copy == *self,
    {
        Query {
            name: self.name.clone(),
            query_type: self.query_type,
            query_class: self.query_class,
        }
    }
}

impl Query {
    /// What identifies this query in the cache.
    pub open spec fn key(&self) -> QueryKey {
        (self.name@, self.query_type.code(), self.query_class.code())
    }

    /// A query for the addresses of the root: name `.`, type `A`, class `IN`.
    pub fn new() -> (query: Self)
        ensures
            query.name@ == "."@,
            query.query_type == RecordType::A,
            query.query_class == DNSClass::IN,
    {
        Query { name: ".".to_owned(), query_type: RecordType::A, query_class: DNSClass::IN }
    }

    /// A query for the records of type `query_type` of `name`, in class `IN`.
    pub fn query(name: String, query_type: RecordType) -> (query: Self)
        ensures
            query == (Query { name, query_type, query_class: DNSClass::IN }),
    {
        Query { name, query_type, query_class: DNSClass::IN }
    }

    pub fn name(&self) -> (name: &String)
        ensures
            *name == self.name,
    {
        &self.name
    }

    pub fn query_type(&self) -> (query_type: RecordType)
        ensures
            query_type == self.query_type,
    {
        self.query_type
    }

    pub fn query_class(&self) -> (query_class: DNSClass)
        ensures
            query_class == self.query_class,
    {
        self.query_class
    }

    pub fn set_query_class(&mut self, query_class: DNSClass)
        ensures
            *final(self) == (Query { query_class, ..*old(self) }),
    {
        self.query_class = query_class;
    }

    /// The key under which the cache holds this query's answer.
    pub fn cache_key(&self) -> (key: (String, u16, u16))
        ensures
            (key.0@, key.1, key.2) == self.key(),
    {
        (self.name.clone(), u16::from(self.query_type), u16::from(self.query_class))
    }
}

/// A response of the upstream client: its status, and the records of its
/// answer and authority sections.
#[derive(Debug, PartialEq, Eq, Clone)]
pub struct Message {
    pub response_code: ResponseCode,
    pub answers: Vec<Record>,
    pub name_servers: Vec<Record>,
}

impl Message {
    /// A response with status `NoError` and no records.
    pub fn new() -> (message: Self)
        ensures
            message.response_code == ResponseCode::NoError,
            message.answers@ == Seq::<Record>::empty(),
            message.name_servers@ == Seq::<Record>::empty(),
    {
        Message { response_code: ResponseCode::NoError, answers: Vec::new(), name_servers: Vec::new() }
    }

    pub fn response_code(&self) -> (code: ResponseCode)
        ensures
            code == self.response_code,
    {
        self.response_code
    }

    pub fn set_response_code(&mut self, code: ResponseCode)
        ensures
            final(self).response_code == code,
            final(self).answers == old(self).answers,
            final(self).name_servers == old(self).name_servers,
    {
        self.response_code = code;
    }

    /// Adds a record at the end of the answer section.
    pub fn add_answer(&mut self, record: Record)
        ensures
            final(self).answers@ == old(self).answers@.push(record),
            final(self).response_code == old(self).response_code,
            final(self).name_servers == old(self).name_servers,
    {
        self.answers.push(record);
    }

    /// Adds a record at the end of the authority section.
    pub fn add_name_server(&mut self, record: Record)
        ensures
            final(self).name_servers@ == old(self).name_servers@.push(record),
            final(self).response_code == old(self).response_code,
            final(self).answers == old(self).answers,
    {
        self.name_servers.push(record);
    }

    /// Takes the answer section out of the message, which keeps none.
    pub fn take_answers(&mut self) -> (answers: Vec<Record>)
        ensures
            answers == old(self).answers,
            final(self).answers@ == Seq::<Record>::empty(),
            final(self).response_code == old(self).response_code,
            final(self).name_servers == old(self).name_servers,
    {
        let mut answers: Vec<Record> = Vec::new();
        std::mem::swap(&mut self.answers, &mut answers);
        answers
    }

    /// Takes the authority section out of the message, which keeps none.
    pub fn take_name_servers(&mut self) -> (name_servers: Vec<Record>)
        ensures
            name_servers == old(self).name_servers,
            final(self).name_servers@ == Seq::<Record>::empty(),
            final(self).response_code == old(self).response_code,
            final(self).answers == old(self).answers,
    {
        let mut name_servers: Vec<Record> = Vec::new();
        std::mem::swap(&mut self.name_servers, &mut name_servers);
        name_servers
    }
}

} // verus!
