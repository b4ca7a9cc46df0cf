//! Error types.

use crate::op::Query;
use crate::op::ResponseCode;
use vstd::prelude::*;

verus! {

/// Why a protocol value could not be built from its textual or numeric form.
#[derive(Debug, Clone, PartialEq, Eq)]
pub enum ProtoError {
    /// No DNS class goes by this name.
    UnknownDnsClassStr(String),
    /// No DNS class has this number.
    UnknownDnsClassValue(u16),
    /// The bytes to read from ended within a value.
    UnexpectedEndOfInput,
}

pub type ProtoResult<T> = Result<T, ProtoError>;

/// A failure of the upstream client, as it reported it.
#[derive(Debug, Clone, PartialEq, Eq)]
pub struct ClientError {
    pub message: String,
}

impl ClientError {
    pub fn new(message: String) -> (error: Self)
        ensures
            error == (ClientError { message }),
    {
        ClientError { message }
    }

    pub fn message(&self) -> (message: &String)
        ensures
            *message == self.message,
    {
        &self.message
    }
}

/// Why a lookup ended without an answer.
#[derive(Debug, Clone, PartialEq, Eq)]
pub enum LookupError {
    /// The name has no records of the kind that the query asks for.
    NameDoesNotExist(Query),
    /// A holder of the cache's lock failed while it held it; the text is
    /// what the lock reported.
    LockPoisoned(String),
    /// The response came with a status that is neither success nor
    /// "name does not exist".
    Protocol(ResponseCode),
    /// The upstream client failed.
    Transport(ClientError),
}

} // verus!
