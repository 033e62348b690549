//! A framed, typed transport over one single-producer, single-consumer ring.
//!
//! A ring of 1024 bytes is split once into a sending half and a receiving half. The
//! sending half encodes one value into one frame of at most 128 bytes and commits it;
//! the receiving half hands the frames out in the order they were committed, as owned
//! values or as views that borrow from the ring itself.
//!
//! - `ring`: the halves and grants of the underlying `bbqueue` ring, and what is
//!   taken on trust about them.
//! - `codec`: what is taken on trust about `postcard`.
//! - `wire`: what a payload type owes: an encoding, a decoding, and a proof that they
//!   agree.
//! - `payload`: the payload types.
//! - `transport`: sending and receiving.
//! - `laws`: round trip and first in, first out.

pub mod codec;
pub mod laws;
pub mod payload;
pub mod ring;
pub mod transport;
pub mod wire;
