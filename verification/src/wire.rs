//! What a value looks like inside a frame. A payload type states its encoding and its
//! decoding as functions on bytes and proves that the two agree.

use vstd::prelude::*;

verus! {

/// The largest payload that is ever reserved for one frame, in bytes.
pub const MAX_FRAME: usize = 128;

/// The value's encoding is longer than the region reserved for it.
#[derive(Clone, Copy, Debug, PartialEq, Eq, Structural)]
pub struct EncodeFailure;

/// The frame's bytes do not hold a value of the type asked for.
#[derive(Clone, Copy, Debug, PartialEq, Eq, Structural)]
pub struct DecodeError;

/// A type of values that travel in frames.
pub trait Wire: View + Sized {
    /// Whether `v` is the view of a value of this type.
    spec fn valid(v: Self::V) -> bool;

    /// The bytes that stand for `v` in a frame.
    spec fn encoding(v: Self::V) -> Seq<u8>;

    /// The value that a frame's bytes stand for, if any.
    spec fn decoding(frame: Seq<u8>) -> Option<Self::V>;

    /// Every value of the type has a valid view.
    proof fn view_is_valid(&self)
        ensures
            Self::valid(self@),
    ;

    /// A valid value whose encoding fits in a frame is decoded from it unchanged.
    proof fn round_trip(v: Self::V)
        requires
            Self::valid(v),
            Self::encoding(v).len() <= MAX_FRAME,
        ensures
            Self::decoding(Self::encoding(v)) == Some(v),
    ;

    /// Writes the value's encoding to the front of `buf` and returns its length, or
    /// fails where `buf` is too short for it. The length of `buf` stays.
    fn encode(&self, buf: &mut [u8]) -> (r: Result<usize, EncodeFailure>)
        ensures
            final(buf)@.len() == old(buf)@.len(),
            r is Ok <==> Self::encoding(self@).len() <= old(buf)@.len(),
            r matches Ok(used) ==> used == Self::encoding(self@).len() && final(buf)@.take(
                used as int,
            ) == Self::encoding(self@),
    ;
}

/// A payload type whose values hold no reference into the frame they came from.
pub trait DecodeOwned: Wire {
    /// Decodes a value from the front of `frame`.
    fn decode_owned(frame: &[u8]) -> (r: Result<Self, DecodeError>)
        ensures
            match Self::decoding(frame@) {
                Some(v) => r matches Ok(x) && x@ == v,
                None => r is Err,
            },
    ;
}

/// A payload type whose values may borrow from the frame they came from.
pub trait Decode<'de>: Wire {
    /// Decodes a value from the front of `frame`, which it may borrow from.
    fn decode(frame: &'de [u8]) -> (r: Result<Self, DecodeError>)
        ensures
            match Self::decoding(frame@) {
                Some(v) => r matches Ok(x) && x@ == v,
                None => r is Err,
            },
    ;
}

} // verus!
