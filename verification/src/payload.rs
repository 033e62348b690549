//! The payload types: a frame's bytes as they are, four bytes held by value, and a
//! byte slice that is borrowed.

use crate::codec::{
    read_array, read_slice, slice_decoding, slice_encoding, write_array, write_slice,
};
use crate::wire::{Decode, DecodeError, DecodeOwned, EncodeFailure, Wire};
use vstd::prelude::*;

verus! {

/// The bytes of a whole frame, borrowed, with no encoding of their own.
#[derive(Debug, Clone, Copy, PartialEq, Eq)]
pub struct Frame<'a> {
    pub bytes: &'a [u8],
}

/// Four bytes, held by value.
#[derive(Debug, Clone, Copy, PartialEq, Eq)]
pub struct OwnedData {
    pub fuzz: [u8; 4],
}

/// Any number of bytes, borrowed.
#[derive(Debug, Clone, Copy, PartialEq, Eq)]
pub struct BorrowedData<'a> {
    pub fuzz: &'a [u8],
}

impl View for OwnedData {
    type V = Seq<u8>;

    open spec fn view(&self) -> Seq<u8> {
        self.fuzz@
    }
}

impl<'a> View for BorrowedData<'a> {
    type V = Seq<u8>;

    open spec fn view(&self) -> Seq<u8> {
        self.fuzz@
    }
}

impl<'a> View for Frame<'a> {
    type V = Seq<u8>;

    open spec fn view(&self) -> Seq<u8> {
        self.bytes@
    }
}

impl<'a> Wire for Frame<'a> {
    open spec fn valid(v: Seq<u8>) -> bool {
        true
    }

    open spec fn encoding(v: Seq<u8>) -> Seq<u8> {
        v
    }

    open spec fn decoding(frame: Seq<u8>) -> Option<Seq<u8>> {
        Some(frame)
    }

    proof fn view_is_valid(&self) {
    }

    proof fn round_trip(v: Seq<u8>) {
    }

    fn encode(&self, buf: &mut [u8]) -> (r: Result<usize, EncodeFailure>) {
        let len = self.bytes.len();
        if len > buf.len() {
            return Err(EncodeFailure);
        }
        let mut i: usize = 0;
        while i < len
            invariant
                i <= len,
                len == self.bytes@.len(),
                len <= buf@.len(),
                buf@.len() == old(buf)@.len(),
                forall|j: int| 0 <= j < i ==> buf@[j] == self.bytes@[j],
            decreases len - i,
        {
            buf[i] = self.bytes[i];
            i += 1;
        }
        assert(buf@.take(len as int) == self.bytes@);
        Ok(len)
    }
}

impl<'de> Decode<'de> for Frame<'de> {
    fn decode(frame: &'de [u8]) -> (r: Result<Self, DecodeError>) {
        Ok(Frame { bytes: frame })
    }
}

impl Wire for OwnedData {
    open spec fn valid(v: Seq<u8>) -> bool {
        v.len() == 4
    }

    open spec fn encoding(v: Seq<u8>) -> Seq<u8> {
        v
    }

    open spec fn decoding(frame: Seq<u8>) -> Option<Seq<u8>> {
        if 4 <= frame.len() {
            Some(frame.take(4))
        } else {
            None
        }
    }

    proof fn view_is_valid(&self) {
    }

    proof fn round_trip(v: Seq<u8>) {
        assert(v.take(4) == v);
    }

    fn encode(&self, buf: &mut [u8]) -> (r: Result<usize, EncodeFailure>) {
        match write_array(&self.fuzz, buf) {
            Ok(used) => Ok(used),
            Err(_) => Err(EncodeFailure),
        }
    }
}

impl DecodeOwned for OwnedData {
    fn decode_owned(frame: &[u8]) -> (r: Result<Self, DecodeError>) {
        match read_array(frame) {
            Ok(fuzz) => Ok(OwnedData { fuzz }),
            Err(_) => Err(DecodeError),
        }
    }
}

impl<'de> Decode<'de> for OwnedData {
    fn decode(frame: &'de [u8]) -> (r: Result<Self, DecodeError>) {
        match read_array(frame) {
            Ok(fuzz) => Ok(OwnedData { fuzz }),
            Err(_) => Err(DecodeError),
        }
    }
}

impl<'a> Wire for BorrowedData<'a> {
    open spec fn valid(v: Seq<u8>) -> bool {
        true
    }

    open spec fn encoding(v: Seq<u8>) -> Seq<u8> {
        slice_encoding(v)
    }

    open spec fn decoding(frame: Seq<u8>) -> Option<Seq<u8>> {
        slice_decoding(frame)
    }

    proof fn view_is_valid(&self) {
    }

    proof fn round_trip(v: Seq<u8>) {
        assert(slice_encoding(v).subrange(1, 1 + v.len() as int) == v);
    }

    fn encode(&self, buf: &mut [u8]) -> (r: Result<usize, EncodeFailure>) {
        match write_slice(self.fuzz, buf) {
            Ok(used) => Ok(used),
            Err(_) => Err(EncodeFailure),
        }
    }
}

impl<'de> Decode<'de> for BorrowedData<'de> {
    fn decode(frame: &'de [u8]) -> (r: Result<Self, DecodeError>) {
        match read_slice(frame) {
            Ok(fuzz) => Ok(BorrowedData { fuzz }),
            Err(_) => Err(DecodeError),
        }
    }
}

} // verus!
