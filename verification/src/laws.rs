//! What holds of the transport as a whole, proved from the contracts of `send`,
//! `rx_owned`, `rx_view` and `view_with`. Each statement takes the two halves of a
//! ring as they were at the moments it speaks of.

use crate::ring::{Message, Rxer, Txer};
use crate::transport::{delivery, in_flight, RecvError};
use crate::wire::{Wire, MAX_FRAME};
use vstd::prelude::*;

verus! {

/// What a sending half has committed after successful sends of `values`, one after
/// another, when it had committed `sent` before: each send appends one encoding.
pub open spec fn after_sends<T: Wire>(sent: Seq<Seq<u8>>, values: Seq<T::V>) -> Seq<Seq<u8>>
    decreases values.len(),
{
    if values.len() == 0 {
        sent
    } else {
        after_sends::<T>(sent, values.drop_last()).push(T::encoding(values.last()))
    }
}

/// Whether every value of a sequence is valid and has an encoding that fits a frame.
pub open spec fn sendable<T: Wire>(values: Seq<T::V>) -> bool {
    forall|i: int|
        0 <= i < values.len() ==> T::valid(#[trigger] values[i]) && T::encoding(values[i]).len()
            <= MAX_FRAME
}

/// A run of sends adds one frame for each value.
proof fn after_sends_len<T: Wire>(sent: Seq<Seq<u8>>, values: Seq<T::V>)
    ensures
        after_sends::<T>(sent, values).len() == sent.len() + values.len(),
    decreases values.len(),
{
    if values.len() > 0 {
        after_sends_len::<T>(sent, values.drop_last());
    }
}

/// A run of sends puts the encoding of the value sent at position `k` that many
/// places behind what was committed before.
proof fn after_sends_at<T: Wire>(sent: Seq<Seq<u8>>, values: Seq<T::V>, k: int)
    requires
        0 <= k < values.len(),
    ensures
        after_sends::<T>(sent, values)[sent.len() + k] == T::encoding(values[k]),
    decreases values.len(),
{
    after_sends_len::<T>(sent, values.drop_last());
    if k < values.len() - 1 {
        after_sends_at::<T>(sent, values.drop_last(), k);
    }
}

/// The frame at the head of what is in flight is the one that was committed at the
/// position that the receiver has reached: frames leave in the order they came.
pub proof fn head_is_oldest(tx: Txer<'static>, rx: Rxer<'static>)
    requires
        rx.taken() < tx.sent().len(),
    ensures
        in_flight(tx, rx).len() == tx.sent().len() - rx.taken(),
        in_flight(tx, rx)[0] == tx.sent()[rx.taken() as int],
{
}

/// A successful send puts the value's encoding behind everything in flight, and only
/// that.
pub proof fn send_appends<T: Wire>(
    before: Txer<'static>,
    after: Txer<'static>,
    rx: Rxer<'static>,
    v: T::V,
)
    requires
        rx.taken() <= before.sent().len(),
        after.sent() == before.sent().push(T::encoding(v)),
    ensures
        in_flight(after, rx) == in_flight(before, rx).push(T::encoding(v)),
{
    assert(in_flight(after, rx) =~= in_flight(before, rx).push(T::encoding(v)));
}

/// Round trip: with nothing in flight, the receive that follows a successful send of
/// a value delivers that value.
pub proof fn round_trip<T: Wire>(
    before: Txer<'static>,
    after: Txer<'static>,
    rx: Rxer<'static>,
    v: T::V,
)
    requires
        T::valid(v),
        T::encoding(v).len() <= MAX_FRAME,
        rx.taken() == before.sent().len(),
        after.sent() == before.sent().push(T::encoding(v)),
    ensures
        in_flight(before, rx).len() == 0,
        in_flight(after, rx) == seq![T::encoding(v)],
        delivery::<T>(in_flight(after, rx)) == Ok::<T::V, RecvError>(v),
{
    T::round_trip(v);
}

/// Round trip without a copy: with nothing in flight, the message that is taken after
/// a successful send of a value holds a frame that decodes to that value, which is
/// what `view_with` hands to its callback.
pub proof fn view_round_trip<T: Wire>(
    before: Txer<'static>,
    after: Txer<'static>,
    rx: Rxer<'static>,
    msg: Message<'static>,
    v: T::V,
)
    requires
        T::valid(v),
        T::encoding(v).len() <= MAX_FRAME,
        rx.taken() == before.sent().len(),
        after.sent() == before.sent().push(T::encoding(v)),
        msg.bytes() == in_flight(after, rx)[0],
    ensures
        msg.bytes() == T::encoding(v),
        T::decoding(msg.bytes()) == Some(v),
{
    round_trip::<T>(before, after, rx, v);
}

/// First in, first out: after a run of successful sends into a ring with nothing in
/// flight, the receive that follows `k` earlier ones delivers the value that was sent
/// at position `k`.
pub proof fn fifo<T: Wire>(
    before: Txer<'static>,
    after: Txer<'static>,
    start: Rxer<'static>,
    rx: Rxer<'static>,
    values: Seq<T::V>,
    k: int,
)
    requires
        sendable::<T>(values),
        start.taken() == before.sent().len(),
        after.sent() == after_sends::<T>(before.sent(), values),
        0 <= k < values.len(),
        rx.taken() == start.taken() + k,
    ensures
        in_flight(after, rx).len() == values.len() - k,
        delivery::<T>(in_flight(after, rx)) == Ok::<T::V, RecvError>(values[k]),
{
    after_sends_len::<T>(before.sent(), values);
    after_sends_at::<T>(before.sent(), values, k);
    T::round_trip(values[k]);
}

} // verus!
