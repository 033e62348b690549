//! The typed transport: a sending half that encodes one value into one frame, a
//! receiving half that hands frames out in the order they were committed, and the
//! message that holds a frame while a value borrowed from it is in use.
//!
//! The ring's state lives in shared storage that both halves point to. It is described
//! here by what each half has done: the frames committed through the sending half and
//! the number given up by the receiving half. A receive is specified against the
//! sending half of the same ring, so it takes a reference to it: while that reference
//! is held, nothing can be committed behind the receiver's back.
//!
//! A frame is given up when it is released, or when it is handed out in a message:
//! a message releases its frame when it is dropped, at the latest, and until then the
//! receiving half reads nothing else.
//!
//! Where the two halves work in different places, the receiving half has no sending
//! half to refer to. `Rxer::rx_frame` is for that case: it says what holds of whatever
//! frame the ring hands out.

use crate::ring::{
    commit, committed, consumer_ring, frame_bytes, fresh_store, grant, idle, payload, producer_ring,
    read, read_from, release, release_on_drop, released, releases_on_drop, reserved_in,
    split_framed, was_split, window, window_mut, Message, Reservation, Rxer, Store, Txer,
};
use crate::wire::{Decode, DecodeError, DecodeOwned, Wire, MAX_FRAME};
use vstd::prelude::*;

verus! {

/// The storage was split before; its two halves exist already.
#[derive(Clone, Copy, Debug, PartialEq, Eq, Structural)]
pub struct AlreadySplit;

/// Why a value was not sent. In either case no frame was committed.
#[derive(Clone, Copy, Debug, PartialEq, Eq, Structural)]
pub enum SendError {
    /// The value's encoding is longer than a frame may be.
    Encode,
    /// The ring had no room for a frame, or a reservation was still out.
    Grant,
}

/// Why no value was received.
#[derive(Clone, Copy, Debug, PartialEq, Eq, Structural)]
pub enum RecvError {
    /// No frame is waiting. Nothing was released.
    NoData,
    /// The oldest frame does not hold a value of the type asked for. It was released.
    Decode,
}

/// The frames that were committed and not yet given up, oldest first, given all that
/// were committed and the number given up.
pub open spec fn pending(sent: Seq<Seq<u8>>, taken: nat) -> Seq<Seq<u8>> {
    if taken <= sent.len() {
        sent.skip(taken as int)
    } else {
        Seq::empty()
    }
}

/// What a receive of a `T` yields when `queue` is in flight.
pub open spec fn delivery<T: Wire>(queue: Seq<Seq<u8>>) -> Result<T::V, RecvError> {
    if queue.len() == 0 {
        Err(RecvError::NoData)
    } else {
        match T::decoding(queue[0]) {
            Some(v) => Ok(v),
            None => Err(RecvError::Decode),
        }
    }
}

/// The outcome of a receive, with the value taken by its view.
pub open spec fn seen<T: View>(r: Result<T, RecvError>) -> Result<T::V, RecvError> {
    match r {
        Ok(value) => Ok(value@),
        Err(e) => Err(e),
    }
}

/// Whether `out` is what `fun` may return for some value whose view is `v`.
pub open spec fn handed<T: View, R, F: FnOnce(T) -> R>(fun: F, v: T::V, out: R) -> bool {
    exists|t: T| t@ == v && #[trigger] call_ensures(fun, (t,), out)
}

/// The frames in flight between the two halves of one ring.
pub open spec fn in_flight(tx: Txer<'static>, rx: Rxer<'static>) -> Seq<Seq<u8>> {
    pending(committed(tx), released(rx))
}

impl Store {
    /// Whether the storage has been split into its halves.
    pub open spec fn split_done(&self) -> bool {
        was_split(*self)
    }

    /// Storage for one ring, not yet split.
    pub fn new() -> (store: Store)
        ensures
            !store.split_done(),
    {
        fresh_store()
    }

    /// Splits the storage into its two halves. This succeeds once: on storage that
    /// has been split it fails. The halves belong to one ring, with nothing in flight.
    pub fn split<'a>(&'a mut self) -> (r: Result<(Txer<'a>, Rxer<'a>), AlreadySplit>)
        ensures
            final(self).split_done(),
            r is Ok <==> !old(self).split_done(),
            r matches Ok((tx, rx)) ==> {
                &&& rx.peer(&tx)
                &&& rx.ready()
                &&& tx.sent() == Seq::<Seq<u8>>::empty()
                &&& rx.taken() == 0
                &&& in_flight(tx, rx) == Seq::<Seq<u8>>::empty()
            },
    {
        match split_framed(self) {
            Ok((tx, rx)) => Ok((tx, rx)),
            Err(_) => Err(AlreadySplit),
        }
    }
}

impl<'a> Reservation<'a> {
    /// The ring that the region was reserved in.
    pub open spec fn ring(&self) -> int {
        reserved_in(*self)
    }

    /// The number of bytes that the region can take.
    pub open spec fn room(&self) -> nat {
        window(*self).len()
    }
}

impl<'a> Txer<'a> {
    /// The ring that this half writes to.
    pub open spec fn ring(&self) -> int {
        producer_ring(*self)
    }

    /// The frames committed so far, oldest first.
    pub open spec fn sent(&self) -> Seq<Seq<u8>> {
        committed(*self)
    }

    /// Reserves room for one frame of up to `MAX_FRAME` bytes. Nothing is committed.
    /// Whether the ring has room is for the ring to say.
    pub fn reserve(&mut self) -> (r: Result<Reservation<'a>, SendError>)
        ensures
            final(self).ring() == old(self).ring(),
            final(self).sent() == old(self).sent(),
            match r {
                Ok(slot) => slot.ring() == old(self).ring() && slot.room() == MAX_FRAME,
                Err(e) => e == SendError::Grant,
            },
    {
        match grant(self, MAX_FRAME) {
            Ok(slot) => Ok(slot),
            Err(_) => Err(SendError::Grant),
        }
    }

    /// Encodes `msg` into a reservation of this half and commits exactly the bytes
    /// that the encoding takes. Where the encoding does not fit, the reservation is
    /// given up and no frame is committed.
    pub fn send_into<T: Wire>(&mut self, slot: Reservation<'a>, msg: &T) -> (r: Result<
        (),
        SendError,
    >)
        requires
            slot.ring() == old(self).ring(),
        ensures
            final(self).ring() == old(self).ring(),
            r is Ok <==> T::encoding(msg@).len() <= slot.room(),
            r is Ok ==> final(self).sent() == old(self).sent().push(T::encoding(msg@)),
            r matches Err(e) ==> e == SendError::Encode && final(self).sent() == old(self).sent(),
    {
        let mut slot = slot;
        let buf = window_mut(&mut slot);
        match msg.encode(buf) {
            Ok(used) => {
                commit(self, slot, used);
                Ok(())
            },
            Err(_) => Err(SendError::Encode),
        }
    }

    /// Sends one value as one frame. On success the frame holds the value's encoding
    /// and nothing else, behind all frames committed before. On failure nothing was
    /// committed; a value whose encoding is longer than `MAX_FRAME` always fails.
    pub fn send<T: Wire>(&mut self, msg: &T) -> (r: Result<(), SendError>)
        ensures
            final(self).ring() == old(self).ring(),
            match r {
                Ok(()) => {
                    &&& T::encoding(msg@).len() <= MAX_FRAME
                    &&& final(self).sent() == old(self).sent().push(T::encoding(msg@))
                },
                Err(SendError::Encode) => {
                    &&& T::encoding(msg@).len() > MAX_FRAME
                    &&& final(self).sent() == old(self).sent()
                },
                Err(SendError::Grant) => final(self).sent() == old(self).sent(),
            },
    {
        match self.reserve() {
            Ok(slot) => self.send_into(slot, msg),
            Err(e) => Err(e),
        }
    }
}

impl<'a> Message<'a> {
    /// The ring that the frame was read from.
    pub open spec fn ring(&self) -> int {
        read_from(*self)
    }

    /// The frame's payload bytes.
    pub open spec fn bytes(&self) -> Seq<u8> {
        payload(*self)
    }

    /// Whether dropping the message releases its frame. Every message that a
    /// receiving half hands out does.
    pub open spec fn ends_on_drop(&self) -> bool {
        releases_on_drop(*self)
    }

    /// Decodes a `T` from the frame, which the value may borrow from, and hands it to
    /// `fun`. The frame stays held: the value cannot outlive the borrow of the message.
    pub fn view_with<'b, T: Decode<'b>, R, F: FnOnce(T) -> R>(&'b self, fun: F) -> (r: Result<
        R,
        DecodeError,
    >)
        requires
            forall|t: T| T::decoding(self.bytes()) == Some(t@) ==> call_requires(fun, (t,)),
        ensures
            match T::decoding(self.bytes()) {
                Some(v) => r matches Ok(out) && handed::<T, R, F>(fun, v, out),
                None => r is Err,
            },
    {
        match T::decode(frame_bytes(self)) {
            Ok(value) => {
                let ghost given = value;
                let out = fun(value);
                assert(handed::<T, R, F>(fun, given@, out)) by {
                    assert(call_ensures(fun, (given,), out));
                }
                Ok(out)
            },
            Err(_) => Err(DecodeError),
        }
    }

    /// Ends the view at once: releases the frame through the receiving half it came
    /// from, which is then ready to read the next one. The frame was given up when
    /// the message was handed out, so the count stays.
    pub fn release(self, rx: &mut Rxer<'a>)
        requires
            self.ring() == old(rx).ring(),
            self.ends_on_drop(),
        ensures
            final(rx).ring() == old(rx).ring(),
            final(rx).taken() == old(rx).taken(),
            final(rx).ready(),
    {
        release(rx, self)
    }
}

impl<'a> Rxer<'a> {
    /// The ring that this half reads from.
    pub open spec fn ring(&self) -> int {
        consumer_ring(*self)
    }

    /// The number of frames given up so far.
    pub open spec fn taken(&self) -> nat {
        released(*self)
    }

    /// No message of this half is still held.
    pub open spec fn ready(&self) -> bool {
        idle(*self)
    }

    /// Whether `tx` is the sending half of this half's ring.
    pub open spec fn peer(&self, tx: &Txer<'static>) -> bool {
        self.ring() == tx.ring()
    }

    /// Turns what the ring handed out into a message that releases its frame when it
    /// ends, and counts the frame as given up; with nothing handed out, nothing
    /// changes.
    fn hand_out(&mut self, got: Option<Message<'a>>) -> (r: Result<Message<'a>, RecvError>)
        requires
            got matches Some(m) ==> m.ring() == old(self).ring() && !m.ends_on_drop(),
        ensures
            final(self).ring() == old(self).ring(),
            match got {
                Some(m) => {
                    &&& r matches Ok(msg)
                    &&& msg.bytes() == m.bytes()
                    &&& msg.ring() == old(self).ring()
                    &&& msg.ends_on_drop()
                    &&& final(self).taken() == old(self).taken() + 1
                },
                None => {
                    &&& r matches Err(RecvError::NoData)
                    &&& *final(self) == *old(self)
                },
            },
    {
        match got {
            Some(msg) => {
                let mut msg = msg;
                release_on_drop(self, &mut msg);
                Ok(msg)
            },
            None => Err(RecvError::NoData),
        }
    }

    /// Takes the next frame that the ring hands out, without decoding it and without
    /// the sending half at hand. Which frame that is, and whether there is one, is
    /// for the ring to say: the sending half may be at work elsewhere.
    pub fn rx_frame(&mut self) -> (r: Result<Message<'a>, RecvError>)
        ensures
            final(self).ring() == old(self).ring(),
            match r {
                Ok(msg) => {
                    &&& msg.ring() == old(self).ring()
                    &&& msg.ends_on_drop()
                    &&& final(self).taken() == old(self).taken() + 1
                },
                Err(e) => {
                    &&& e == RecvError::NoData
                    &&& final(self).taken() == old(self).taken()
                    &&& final(self).ready() == old(self).ready()
                },
            },
    {
        let got = read(self, None);
        self.hand_out(got)
    }

    /// Takes the oldest frame in flight without decoding it. The frame is held by the
    /// message and released when the message ends: by `Message::release`, or when it
    /// is dropped. With no message held, this fails exactly when nothing is in flight.
    /// After it, the half is ready again once `Message::release` has run.
    pub fn rx_view(&mut self, tx: &Txer<'a>) -> (r: Result<Message<'a>, RecvError>)
        requires
            old(self).peer(tx),
        ensures
            final(self).ring() == old(self).ring(),
            old(self).ready() ==> (r is Ok <==> in_flight(*tx, *old(self)).len() > 0),
            match r {
                Ok(msg) => {
                    &&& in_flight(*tx, *old(self)).len() > 0
                    &&& msg.bytes() == in_flight(*tx, *old(self))[0]
                    &&& msg.ring() == old(self).ring()
                    &&& msg.ends_on_drop()
                    &&& final(self).taken() == old(self).taken() + 1
                    &&& in_flight(*tx, *final(self)) == in_flight(*tx, *old(self)).skip(1)
                },
                Err(e) => {
                    &&& e == RecvError::NoData
                    &&& final(self).taken() == old(self).taken()
                    &&& final(self).ready() == old(self).ready()
                },
            },
    {
        let got = read(self, Some(tx));
        self.hand_out(got)
    }

    /// Receives the oldest frame in flight as an owned `T`. The frame is released
    /// whether or not it decodes. With no message held, the outcome is the delivery
    /// of what is in flight.
    pub fn rx_owned<T: DecodeOwned>(&mut self, tx: &Txer<'a>) -> (r: Result<T, RecvError>)
        requires
            old(self).peer(tx),
        ensures
            final(self).ring() == old(self).ring(),
            old(self).ready() ==> seen(r) == delivery::<T>(in_flight(*tx, *old(self))),
            in_flight(*tx, *old(self)).len() == 0 ==> r matches Err(RecvError::NoData),
            match r {
                Err(RecvError::NoData) => {
                    &&& final(self).taken() == old(self).taken()
                    &&& final(self).ready() == old(self).ready()
                },
                _ => {
                    &&& seen(r) == delivery::<T>(in_flight(*tx, *old(self)))
                    &&& final(self).taken() == old(self).taken() + 1
                    &&& final(self).ready()
                    &&& in_flight(*tx, *final(self)) == in_flight(*tx, *old(self)).skip(1)
                },
            },
    {
        match read(self, Some(tx)) {
            Some(msg) => {
                let decoded = T::decode_owned(frame_bytes(&msg));
                release(self, msg);
                match decoded {
                    Ok(value) => Ok(value),
                    Err(_) => Err(RecvError::Decode),
                }
            },
            None => Err(RecvError::NoData),
        }
    }

    /// Receives the oldest frame in flight as an owned `T` and hands the value to
    /// `fun`. The frame is released after decoding, whether or not it decodes, and
    /// before `fun` runs.
    pub fn rx_owned_with<T: DecodeOwned, R, F: FnOnce(T) -> R>(
        &mut self,
        tx: &Txer<'a>,
        fun: F,
    ) -> (r: Result<R, RecvError>)
        requires
            old(self).peer(tx),
            forall|t: T|
                delivery::<T>(in_flight(*tx, *old(self))) == Ok::<T::V, RecvError>(t@)
                    ==> call_requires(fun, (t,)),
        ensures
            final(self).ring() == old(self).ring(),
            in_flight(*tx, *old(self)).len() == 0 ==> r matches Err(RecvError::NoData),
            old(self).ready() && in_flight(*tx, *old(self)).len() > 0 ==> !(r matches Err(
                RecvError::NoData,
            )),
            match r {
                Err(RecvError::NoData) => {
                    &&& final(self).taken() == old(self).taken()
                    &&& final(self).ready() == old(self).ready()
                },
                Err(RecvError::Decode) => {
                    &&& delivery::<T>(in_flight(*tx, *old(self))) == Err::<T::V, RecvError>(
                        RecvError::Decode,
                    )
                    &&& final(self).taken() == old(self).taken() + 1
                    &&& final(self).ready()
                },
                Ok(out) => {
                    &&& delivery::<T>(in_flight(*tx, *old(self))) matches Ok(v)
                    &&& handed::<T, R, F>(fun, v, out)
                    &&& final(self).taken() == old(self).taken() + 1
                    &&& final(self).ready()
                },
            },
    {
        match self.rx_owned::<T>(tx) {
            Ok(value) => {
                let ghost given = value;
                let out = fun(value);
                assert(handed::<T, R, F>(fun, given@, out)) by {
                    assert(call_ensures(fun, (given,), out));
                }
                Ok(out)
            },
            Err(e) => Err(e),
        }
    }
}

} // verus!
