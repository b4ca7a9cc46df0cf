//! class of DNS operations, in general always IN for internet

use crate::error::ProtoError;
use crate::error::ProtoResult;
use crate::serialize::bytes_of;
use crate::serialize::lemma_u16_round_trip;
use crate::serialize::u16_of;
use crate::serialize::BinDecoder;
use crate::serialize::BinEncoder;
use std::cmp::Ordering;
use vstd::prelude::*;
use vstd::std_specs::cmp::PartialOrdSpecImpl;
use vstd::std_specs::convert::FromSpecImpl;
use vstd::string::StrSliceExecFns;

verus! {

/// The DNS Record class
#[derive(Debug, PartialEq, Eq, Hash, Copy, Clone, Structural)]
#[allow(dead_code)]
pub enum DNSClass {
    /// Internet
    IN,
    /// Chaos
    CH,
    /// Hesiod
    HS,
    /// QCLASS NONE
    NONE,
    /// QCLASS * (ANY)
    ANY,
    /// Special class for OPT Version, it was overloaded for EDNS - RFC 6891
    OPT(u16),
}

/// Whether two strings hold the same characters.
fn str_eq(a: &str, b: &str) -> (same: bool)
    ensures
        same == (a@ == b@),
{
    let n: usize = a.unicode_len();
    if n != b.unicode_len() {
        return false;
    }
    let mut i: usize = 0;
    while i < n
        invariant
            i <= n,
            n == a@.len(),
            n == b@.len(),
            forall|j: int| 0 <= j < i ==> a@[j] == b@[j],
        decreases n - i,
    {
        if a.get_char(i) != b.get_char(i) {
            return false;
        }
        i += 1;
    }
    assert(a@ =~= b@);
    true
}

impl DNSClass {
    /// The class that a name stands for, if it is the name of one.
    pub open spec fn named(name: Seq<char>) -> Option<DNSClass> {
        if name == seq!['I', 'N'] {
            Some(DNSClass::IN)
        } else if name == seq!['C', 'H'] {
            Some(DNSClass::CH)
        } else if name == seq!['H', 'S'] {
            Some(DNSClass::HS)
        } else if name == seq!['N', 'O', 'N', 'E'] {
            Some(DNSClass::NONE)
        } else if name == seq!['A', 'N', 'Y'] || name == seq!['*'] {
            Some(DNSClass::ANY)
        } else {
            None
        }
    }

    /// The class that a number stands for, if it is the number of a named class.
    pub open spec fn numbered(value: u16) -> Option<DNSClass> {
        if value == 1 {
            Some(DNSClass::IN)
        } else if value == 3 {
            Some(DNSClass::CH)
        } else if value == 4 {
            Some(DNSClass::HS)
        } else if value == 254 {
            Some(DNSClass::NONE)
        } else if value == 255 {
            Some(DNSClass::ANY)
        } else {
            None
        }
    }

    /// The number of a class on the wire; for `OPT`, the value it carries.
    pub open spec fn code(self) -> u16 {
        match self {
            DNSClass::IN => 1,
            DNSClass::CH => 3,
            DNSClass::HS => 4,
            DNSClass::NONE => 254,
            DNSClass::ANY => 255,
            DNSClass::OPT(version) => version,
        }
    }

    /// Convert from &str to DNSClass
    pub fn from_str(str: &str) -> (class: ProtoResult<Self>)
        ensures
            match class {
                Ok(c) => Self::named(str@) == Some(c),
                Err(ProtoError::UnknownDnsClassStr(s)) => Self::named(str@) is None && s@ == str@,
                Err(_) => false,
            },
    {
        proof {
            reveal_strlit("IN");
            reveal_strlit("CH");
            reveal_strlit("HS");
            reveal_strlit("NONE");
            reveal_strlit("ANY");
            reveal_strlit("*");
            assert("IN"@ =~= seq!['I', 'N']);
            assert("CH"@ =~= seq!['C', 'H']);
            assert("HS"@ =~= seq!['H', 'S']);
            assert("NONE"@ =~= seq!['N', 'O', 'N', 'E']);
            assert("ANY"@ =~= seq!['A', 'N', 'Y']);
            assert("*"@ =~= seq!['*']);
        }
        if str_eq(str, "IN") {
            Ok(DNSClass::IN)
        } else if str_eq(str, "CH") {
            Ok(DNSClass::CH)
        } else if str_eq(str, "HS") {
            Ok(DNSClass::HS)
        } else if str_eq(str, "NONE") {
            Ok(DNSClass::NONE)
        } else if str_eq(str, "ANY") || str_eq(str, "*") {
            Ok(DNSClass::ANY)
        } else {
            Err(ProtoError::UnknownDnsClassStr(str.to_owned()))
        }
    }

    /// Convert from u16 to DNSClass
    pub fn from_u16(value: u16) -> (class: ProtoResult<Self>)
        ensures
            class == (match Self::numbered(value) {
                Some(c) => Ok::<DNSClass, ProtoError>(c),
                None => Err::<DNSClass, ProtoError>(ProtoError::UnknownDnsClassValue(value)),
            }),
    {
        match value {
            1 => Ok(DNSClass::IN),
            3 => Ok(DNSClass::CH),
            4 => Ok(DNSClass::HS),
            254 => Ok(DNSClass::NONE),
            255 => Ok(DNSClass::ANY),
            _ => Err(ProtoError::UnknownDnsClassValue(value)),
        }
    }

    /// Return the OPT version from value
    pub fn for_opt(value: u16) -> (class: Self)
        ensures
            class == DNSClass::OPT(value),
    {
        DNSClass::OPT(value)
    }

    /// Reads a class from its number in two bytes. Where fewer than two
    /// bytes are left, nothing is read.
    pub fn read(decoder: &mut BinDecoder) -> (class: ProtoResult<Self>)
        ensures
            class == (if old(decoder)@.len() < 2 {
                Err::<DNSClass, ProtoError>(ProtoError::UnexpectedEndOfInput)
            } else {
                match Self::numbered(u16_of(old(decoder)@[0], old(decoder)@[1])) {
                    Some(c) => Ok::<DNSClass, ProtoError>(c),
                    None => Err::<DNSClass, ProtoError>(
                        ProtoError::UnknownDnsClassValue(u16_of(old(decoder)@[0], old(decoder)@[1])),
                    ),
                }
            }),
            final(decoder)@ == (if old(decoder)@.len() < 2 {
                old(decoder)@
            } else {
                old(decoder)@.skip(2)
            }),
    {
        match decoder.read_u16() {
            Ok(value) => Self::from_u16(value),
            Err(error) => Err(error),
        }
    }

    /// Writes the number of the class in two bytes.
    pub fn emit(&self, encoder: &mut BinEncoder) -> (done: ProtoResult<()>)
        ensures
            done is Ok,
            final(encoder)@ == old(encoder)@ + bytes_of(self.code()),
    {
        encoder.emit_u16(u16::from(*self))
    }

    /// A named class is read back from the bytes that were written for it;
    /// after it come the bytes that followed.
    pub proof fn lemma_read_what_was_emitted(self, rest: Seq<u8>)
        requires
            !(self is OPT),
        ensures
            (bytes_of(self.code()) + rest).len() >= 2,
            Self::numbered(
                u16_of((bytes_of(self.code()) + rest)[0], (bytes_of(self.code()) + rest)[1]),
            ) == Some(self),
            (bytes_of(self.code()) + rest).skip(2) == rest,
    {
        lemma_u16_round_trip(self.code());
    }

    /// How two classes compare: as their numbers on the wire do.
    pub open spec fn compared(self, other: DNSClass) -> Ordering {
        if self.code() < other.code() {
            Ordering::Less
        } else if self.code() == other.code() {
            Ordering::Equal
        } else {
            Ordering::Greater
        }
    }

    /// Compares two classes by their numbers on the wire.
    pub fn cmp(&self, other: &Self) -> (o: Ordering)
        ensures
            o == self.compared(*other),
    {
        let a: u16 = u16::from(*self);
        let b: u16 = u16::from(*other);
        if a < b {
            Ordering::Less
        } else if a == b {
            Ordering::Equal
        } else {
            Ordering::Greater
        }
    }
}

/// Convert from DNSClass to &str
impl From<DNSClass> for &'static str {
    fn from(rt: DNSClass) -> (name: &'static str) {
        match rt {
            DNSClass::IN => "IN",
            DNSClass::CH => "CH",
            DNSClass::HS => "HS",
            DNSClass::NONE => "NONE",
            DNSClass::ANY => "ANY",
            DNSClass::OPT(_) => "OPT",
        }
    }
}

impl FromSpecImpl<DNSClass> for &'static str {
    open spec fn obeys_from_spec() -> bool {
        true
    }

    open spec fn from_spec(rt: DNSClass) -> &'static str {
        match rt {
            DNSClass::IN => "IN",
            DNSClass::CH => "CH",
            DNSClass::HS => "HS",
            DNSClass::NONE => "NONE",
            DNSClass::ANY => "ANY",
            DNSClass::OPT(_) => "OPT",
        }
    }
}

/// Convert from DNSClass to u16
impl From<DNSClass> for u16 {
    fn from(rt: DNSClass) -> (value: Self) {
        match rt {
            DNSClass::IN => 1,
            DNSClass::CH => 3,
            DNSClass::HS => 4,
            DNSClass::NONE => 254,
            DNSClass::ANY => 255,
            DNSClass::OPT(version) => version,
        }
    }
}

impl FromSpecImpl<DNSClass> for u16 {
    open spec fn obeys_from_spec() -> bool {
        true
    }

    open spec fn from_spec(rt: DNSClass) -> u16 {
        rt.code()
    }
}

impl PartialOrd for DNSClass {
    fn partial_cmp(&self, other: &DNSClass) -> (o: Option<Ordering>) {
        Some(self.cmp(other))
    }
}

impl PartialOrdSpecImpl for DNSClass {
    open spec fn obeys_partial_cmp_spec() -> bool {
        true
    }

    open spec fn partial_cmp_spec(&self, other: &DNSClass) -> Option<Ordering> {
        Some(self.compared(*other))
    }
}

} // verus!
