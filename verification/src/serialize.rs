//! Reading and writing 16-bit values in network byte order.

use crate::error::ProtoError;
use crate::error::ProtoResult;
use vstd::prelude::*;
use vstd::slice::slice_subrange;

verus! {

/// The 16-bit value whose more significant byte is `high`.
pub open spec fn u16_of(high: u8, low: u8) -> u16 {
    (high * 256 + low) as u16
}

/// The bytes of `value`, the more significant one first.
pub open spec fn bytes_of(value: u16) -> Seq<u8> {
    seq![(value / 256) as u8, (value % 256) as u8]
}

/// Reads values from bytes. Its view is the bytes that are still to be read.
pub struct BinDecoder<'a> {
    buffer: &'a [u8],
}

impl<'a> View for BinDecoder<'a> {
    type V = Seq<u8>;

    closed spec fn view(&self) -> Seq<u8> {
        self.buffer@
    }
}

impl<'a> BinDecoder<'a> {
    /// A decoder that has all of `buffer` to read.
    pub fn new(buffer: &'a [u8]) -> (decoder: Self)
        ensures
            decoder@ == buffer@,
    {
        BinDecoder { buffer }
    }

    /// How many bytes are still to be read.
    pub fn len(&self) -> (len: usize)
        ensures
            len == self@.len(),
    {
        self.buffer.len()
    }

    /// Reads two bytes as a value in network byte order. Where fewer than
    /// two bytes are left, nothing is read.
    pub fn read_u16(&mut self) -> (value: ProtoResult<u16>)
        ensures
            match value {
                Ok(v) => {
                    &&& old(self)@.len() >= 2
                    &&& v == u16_of(old(self)@[0], old(self)@[1])
                    &&& final(self)@ == old(self)@.skip(2)
                },
                Err(error) => {
                    &&& old(self)@.len() < 2
                    &&& error == ProtoError::UnexpectedEndOfInput
                    &&& final(self)@ == old(self)@
                },
            },
    {
        let buffer = self.buffer;
        if buffer.len() < 2 {
            return Err(ProtoError::UnexpectedEndOfInput);
        }
        let b1: u8 = buffer[0];
        let b2: u8 = buffer[1];
        self.buffer = slice_subrange(buffer, 2, buffer.len());
        // network byte order: the more significant byte comes first
        Ok((b1 as u16) * 256 + (b2 as u16))
    }
}

/// Writes values as bytes. Its view is the bytes written so far.
pub struct BinEncoder {
    buffer: Vec<u8>,
}

impl View for BinEncoder {
    type V = Seq<u8>;

    closed spec fn view(&self) -> Seq<u8> {
        self.buffer@
    }
}

impl BinEncoder {
    /// An encoder that has written nothing yet.
    pub fn new() -> (encoder: Self)
        ensures
            encoder@ == Seq::<u8>::empty(),
    {
        BinEncoder { buffer: Vec::new() }
    }

    /// Writes `data` as two bytes in network byte order.
    pub fn emit_u16(&mut self, data: u16) -> (done: ProtoResult<()>)
        ensures
            done is Ok,
            final(self)@ == old(self)@ + bytes_of(data),
    {
        let b1: u8 = (data / 256) as u8;
        let b2: u8 = (data % 256) as u8;
        self.buffer.push(b1);
        self.buffer.push(b2);
        Ok(())
    }

    /// The bytes written.
    pub fn into_bytes(self) -> (bytes: Vec<u8>)
        ensures
            bytes@ == self@,
    {
        self.buffer
    }
}

/// Two bytes written for a value read back as that value.
pub proof fn lemma_u16_round_trip(value: u16)
    ensures
        bytes_of(value).len() == 2,
        u16_of(bytes_of(value)[0], bytes_of(value)[1]) == value,
{
}

} // verus!
