//! The boundary to the ring store: the two halves of a framed `bbqueue` buffer and the
//! grants they hand out. Nothing in this file is proved. Each contract states what the
//! `bbqueue` source shows of one call, over a history of frames kept per handle.
//!
//! `bbqueue` bounds its types by a trait of `generic-array`, which Verus cannot take in
//! a type declaration, so each handle is held in a struct whose field Verus does not
//! read.

use bbqueue::consts::U1024;
use bbqueue::framed::{FrameConsumer, FrameGrantR, FrameGrantW, FrameProducer};
use bbqueue::BBBuffer;
use vstd::prelude::*;

verus! {

/// The backing storage of one ring of 1024 bytes, not yet split: a `BBBuffer`.
#[verifier::external_body]
pub struct Store {
    buffer: BBBuffer<U1024>,
}

/// The sending half of a ring: a `FrameProducer`.
#[verifier::external_body]
pub struct Txer<'a> {
    prod: FrameProducer<'a, U1024>,
}

/// The receiving half of a ring: a `FrameConsumer`.
#[verifier::external_body]
pub struct Rxer<'a> {
    cons: FrameConsumer<'a, U1024>,
}

/// A region reserved for one frame that is being written: a `FrameGrantW`. Dropped
/// without a commit, it commits nothing.
#[verifier::external_body]
pub struct Reservation<'a> {
    wgr: FrameGrantW<'a, U1024>,
}

/// One received frame, held until it is released: a `FrameGrantR`.
#[verifier::external_body]
pub struct Message<'a> {
    fgr: FrameGrantR<'a, U1024>,
}

/// `bbqueue::Error`, with its variants.
#[verifier::external_type_specification]
pub struct ExRingError(bbqueue::Error);

/// Whether the storage has been split.
pub uninterp spec fn was_split(store: Store) -> bool;

/// The ring that a sending half writes to.
pub uninterp spec fn producer_ring(tx: Txer<'static>) -> int;

/// The frames committed through a sending half since the split, oldest first.
pub uninterp spec fn committed(tx: Txer<'static>) -> Seq<Seq<u8>>;

/// The ring that a receiving half reads from.
pub uninterp spec fn consumer_ring(rx: Rxer<'static>) -> int;

/// The number of frames that a receiving half has given up since the split: those it
/// released, and the one held by a message that releases on drop.
pub uninterp spec fn released(rx: Rxer<'static>) -> nat;

/// No read grant of this receiving half is outstanding.
pub uninterp spec fn idle(rx: Rxer<'static>) -> bool;

/// The ring that a reservation was made in.
pub uninterp spec fn reserved_in(slot: Reservation<'static>) -> int;

/// The bytes of a reservation's payload region.
pub uninterp spec fn window(slot: Reservation<'static>) -> Seq<u8>;

/// The ring that a message was read from.
pub uninterp spec fn read_from(msg: Message<'static>) -> int;

/// The payload bytes of the frame that a message holds.
pub uninterp spec fn payload(msg: Message<'static>) -> Seq<u8>;

/// Whether a message releases its frame when it is dropped.
pub uninterp spec fn releases_on_drop(msg: Message<'static>) -> bool;

/// `BBBuffer::new`: storage for a ring that has not been split.
#[verifier::external_body]
pub(crate) fn fresh_store() -> (store: Store)
    ensures
        !was_split(store),
{
    Store { buffer: BBBuffer::new() }
}

/// `BBBuffer::try_split_framed`: succeeds exactly on storage that has not been split,
/// which is split from then on. On success the two halves belong to one ring, nothing
/// has been committed or released through them, and no read grant is out.
#[verifier::external_body]
pub(crate) fn split_framed<'a>(store: &'a mut Store) -> (r: Result<
    (Txer<'a>, Rxer<'a>),
    bbqueue::Error,
>)
    ensures
        was_split(*final(store)),
        r is Ok <==> !was_split(*old(store)),
        r matches Ok((tx, rx)) ==> {
            &&& producer_ring(tx) == consumer_ring(rx)
            &&& committed(tx).len() == 0
            &&& released(rx) == 0
            &&& idle(rx)
        },
{
    match store.buffer.try_split_framed() {
        Ok((prod, cons)) => Ok((Txer { prod }, Rxer { cons })),
        Err(e) => Err(e),
    }
}

/// `FrameProducer::grant`: commits nothing; a reservation that is handed out has a
/// payload region of exactly `max_size` bytes.
#[verifier::external_body]
pub(crate) fn grant<'a>(tx: &mut Txer<'a>, max_size: usize) -> (r: Result<
    Reservation<'a>,
    bbqueue::Error,
>)
    requires
        max_size <= 0x1000_0000,
    ensures
        producer_ring(*final(tx)) == producer_ring(*old(tx)),
        committed(*final(tx)) == committed(*old(tx)),
        r matches Ok(slot) ==> reserved_in(slot) == producer_ring(*old(tx)) && window(slot).len()
            == max_size,
{
    match tx.prod.grant(max_size) {
        Ok(wgr) => Ok(Reservation { wgr }),
        Err(e) => Err(e),
    }
}

/// `DerefMut` of `FrameGrantW`: the payload region, to be written in place.
#[verifier::external_body]
pub(crate) fn window_mut<'g, 'a>(slot: &'g mut Reservation<'a>) -> (buf: &'g mut [u8])
    ensures
        buf@ == window(*old(slot)),
        window(*final(slot)) == final(buf)@,
        reserved_in(*final(slot)) == reserved_in(*old(slot)),
{
    &mut *slot.wgr
}

/// `FrameGrantW::commit`: appends one frame to what the reservation's sending half has
/// committed, made of the first `used` bytes of the payload region, or of all of it
/// where `used` is larger. The sending half is not touched: it stands for the history.
#[allow(unused_variables)]
#[verifier::external_body]
pub(crate) fn commit<'a>(tx: &mut Txer<'a>, slot: Reservation<'a>, used: usize)
    requires
        reserved_in(slot) == producer_ring(*old(tx)),
    ensures
        producer_ring(*final(tx)) == producer_ring(*old(tx)),
        committed(*final(tx)) == committed(*old(tx)).push(
            if used <= window(slot).len() {
                window(slot).take(used as int)
            } else {
                window(slot)
            },
        ),
{
    slot.wgr.commit(used)
}

/// `FrameConsumer::read`. A message that is handed out holds a frame of the receiving
/// half's ring; dropped as it is, it releases nothing. Nothing is released by the
/// call. Where the sending half of the same ring is given, it stands for what has been
/// committed: the message holds the oldest frame that was committed and not yet given
/// up, and with no read grant out one is handed out exactly when such a frame exists.
/// The sending half is not touched.
#[allow(unused_variables)]
#[verifier::external_body]
pub(crate) fn read<'a>(rx: &mut Rxer<'a>, tx: Option<&Txer<'a>>) -> (r: Option<Message<'a>>)
    requires
        tx matches Some(peer) ==> consumer_ring(*old(rx)) == producer_ring(*peer),
    ensures
        consumer_ring(*final(rx)) == consumer_ring(*old(rx)),
        released(*final(rx)) == released(*old(rx)),
        r is None ==> idle(*final(rx)) == idle(*old(rx)),
        r matches Some(msg) ==> read_from(msg) == consumer_ring(*old(rx)) && !releases_on_drop(
            msg,
        ),
        tx matches Some(peer) ==> {
            &&& idle(*old(rx)) ==> (r is Some <==> released(*old(rx)) < committed(*peer).len())
            &&& r matches Some(msg) ==> {
                &&& released(*old(rx)) < committed(*peer).len()
                &&& payload(msg) == committed(*peer)[released(*old(rx)) as int]
            }
        },
{
    match rx.cons.read() {
        Some(fgr) => Some(Message { fgr }),
        None => None,
    }
}

/// `Deref` of `FrameGrantR`: the payload bytes of the frame, without its header.
#[verifier::external_body]
pub(crate) fn frame_bytes<'g, 'a>(msg: &'g Message<'a>) -> (bytes: &'g [u8])
    ensures
        bytes@ == payload(*msg),
{
    &*msg.fgr
}

/// `FrameGrantR::auto_release` with `true`: the message holds the same frame and will
/// release it when it is dropped, so its receiving half has given the frame up. The
/// receiving half is not touched: it stands for the count.
#[allow(unused_variables)]
#[verifier::external_body]
pub(crate) fn release_on_drop<'a>(rx: &mut Rxer<'a>, msg: &mut Message<'a>)
    requires
        read_from(*old(msg)) == consumer_ring(*old(rx)),
        !releases_on_drop(*old(msg)),
    ensures
        consumer_ring(*final(rx)) == consumer_ring(*old(rx)),
        released(*final(rx)) == released(*old(rx)) + 1,
        payload(*final(msg)) == payload(*old(msg)),
        read_from(*final(msg)) == read_from(*old(msg)),
        releases_on_drop(*final(msg)),
{
    msg.fgr.auto_release(true)
}

/// `FrameGrantR::release`: the whole frame is released through the message's receiving
/// half, which then has no read grant out. The frame counts as given up once: here,
/// unless the message was to release it on drop. The receiving half is not touched:
/// it stands for the count.
#[allow(unused_variables)]
#[verifier::external_body]
pub(crate) fn release<'a>(rx: &mut Rxer<'a>, msg: Message<'a>)
    requires
        read_from(msg) == consumer_ring(*old(rx)),
    ensures
        consumer_ring(*final(rx)) == consumer_ring(*old(rx)),
        released(*final(rx)) == if releases_on_drop(msg) {
            released(*old(rx))
        } else {
            released(*old(rx)) + 1
        },
        idle(*final(rx)),
{
    msg.fgr.release()
}

} // verus!
