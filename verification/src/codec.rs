//! The boundary to `postcard`: how it writes and reads a fixed array of four bytes and a
//! byte slice. Nothing in this file is proved. Each contract states the bytes that
//! `postcard::to_slice` produces, or the value that `postcard::from_bytes` accepts, for
//! one type.

use vstd::prelude::*;

verus! {

/// `postcard::Error`, carried as it is. Nothing is stated of its value.
#[verifier::external_type_specification]
#[verifier::external_body]
pub struct ExCodecError(postcard::Error);

/// A length as `postcard` writes it: seven bits to a byte, the low bits first, the top
/// bit set on every byte but the last.
pub open spec fn varint(n: nat) -> Seq<u8>
    decreases n,
{
    if n < 128 {
        seq![n as u8]
    } else {
        seq![(128 + n % 128) as u8] + varint(n / 128)
    }
}

/// A byte slice as `postcard` writes it: its length, then its bytes.
pub open spec fn slice_encoding(bytes: Seq<u8>) -> Seq<u8> {
    varint(bytes.len()) + bytes
}

/// Whether a frame's length prefix takes more than one byte.
pub open spec fn has_long_prefix(frame: Seq<u8>) -> bool {
    frame.len() > 0 && frame[0] >= 128
}

/// What `postcard` reads as a byte slice from a frame whose length prefix takes more
/// than one byte.
pub uninterp spec fn long_slice_decoding(frame: Seq<u8>) -> Option<Seq<u8>>;

/// What `postcard` reads as a byte slice from a frame that is empty or whose first
/// byte is the whole length prefix: as many bytes as that byte says, if the frame has
/// them.
pub open spec fn short_slice_decoding(frame: Seq<u8>) -> Option<Seq<u8>> {
    if 0 < frame.len() && 1 + frame[0] <= frame.len() {
        Some(frame.subrange(1, 1 + frame[0]))
    } else {
        None
    }
}

/// The byte slice that `postcard` reads from the front of a frame. Bytes after the
/// slice are ignored.
pub open spec fn slice_decoding(frame: Seq<u8>) -> Option<Seq<u8>> {
    if has_long_prefix(frame) {
        long_slice_decoding(frame)
    } else {
        short_slice_decoding(frame)
    }
}

/// `postcard::to_slice` on `[u8; 4]`: the four bytes as they are, written to the front
/// of `buf`; an error exactly when `buf` is shorter than that.
#[verifier::external_body]
pub(crate) fn write_array(value: &[u8; 4], buf: &mut [u8]) -> (r: Result<usize, postcard::Error>)
    ensures
        final(buf)@.len() == old(buf)@.len(),
        r is Ok <==> 4 <= old(buf)@.len(),
        r matches Ok(used) ==> used == 4 && final(buf)@.take(4) == value@,
{
    match postcard::to_slice(value, buf) {
        Ok(written) => Ok(written.len()),
        Err(e) => Err(e),
    }
}

/// `postcard::to_slice` on `[u8]`: the length and the bytes, written to the front of
/// `buf`; an error exactly when `buf` is shorter than that.
#[verifier::external_body]
pub(crate) fn write_slice(value: &[u8], buf: &mut [u8]) -> (r: Result<usize, postcard::Error>)
    ensures
        final(buf)@.len() == old(buf)@.len(),
        r is Ok <==> slice_encoding(value@).len() <= old(buf)@.len(),
        r matches Ok(used) ==> used == slice_encoding(value@).len() && final(buf)@.take(
            used as int,
        ) == slice_encoding(value@),
{
    match postcard::to_slice(value, buf) {
        Ok(written) => Ok(written.len()),
        Err(e) => Err(e),
    }
}

/// `postcard::from_bytes` for `[u8; 4]`: the first four bytes of the frame; an error
/// exactly when the frame is shorter than that.
#[verifier::external_body]
pub(crate) fn read_array(frame: &[u8]) -> (r: Result<[u8; 4], postcard::Error>)
    ensures
        r is Ok <==> 4 <= frame@.len(),
        r matches Ok(value) ==> value@ == frame@.take(4),
{
    postcard::from_bytes(frame)
}

/// `postcard::from_bytes` for `&[u8]`: the slice that the frame's length prefix marks
/// out, borrowed from the frame; an error where the frame holds none.
#[verifier::external_body]
pub(crate) fn read_slice<'de>(frame: &'de [u8]) -> (r: Result<&'de [u8], postcard::Error>)
    ensures
        match (if has_long_prefix(frame@) {
            long_slice_decoding(frame@)
        } else {
            short_slice_decoding(frame@)
        }) {
            Some(bytes) => r matches Ok(value) && value@ == bytes,
            None => r is Err,
        },
{
    postcard::from_bytes(frame)
}

} // verus!
