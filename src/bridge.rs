use vstd::prelude::*;
use nolock::queues::mpmc::bounded::scq::{Receiver, Sender};
use nolock::queues::{DequeueError, EnqueueError};
use crate::rx_ring::RxBufferPacket;

verus! {

// The bridge queue between interrupt context and normal context is nolock's
// bounded lock-free queue; its two halves and its errors are carried through
// the library as opaque values. Each half is used from one context only, so
// the library tracks, per half, the records that went through it.

#[verifier::external_type_specification]
#[verifier::external_body]
#[verifier::reject_recursive_types(T)]
pub struct ExBridgeSender<T>(Sender<T>);

#[verifier::external_type_specification]
#[verifier::external_body]
#[verifier::reject_recursive_types(T)]
pub struct ExBridgeReceiver<T>(Receiver<T>);

#[verifier::external_type_specification]
#[verifier::external_body]
pub struct ExEnqueueError(EnqueueError);

#[verifier::external_type_specification]
#[verifier::external_body]
pub struct ExDequeueError(DequeueError);

/// The frames (record bytes) that the queue has taken through this sending
/// half, oldest first.
pub uninterp spec fn accepted(s: Sender<RxBufferPacket>) -> Seq<Seq<u8>>;

/// The frames (record bytes) that this receiving half has handed out,
/// oldest first.
pub uninterp spec fn delivered(r: Receiver<RxBufferPacket>) -> Seq<Seq<u8>>;

/// Relies on nolock's `scq::queue`: creates the two halves of a bounded
/// lock-free queue holding at most `capacity` items; nothing has gone
/// through either half yet. Its setup computes `2 * capacity - 1`, which
/// underflows for zero, and keeps that value as a `u32` marker, which is
/// truncated above 2^31.
#[verifier::external_body]
pub(crate) fn new_queue(capacity: usize) -> (r: (Receiver<RxBufferPacket>, Sender<RxBufferPacket>))
    requires
        1 <= capacity <= 0x8000_0000,
    ensures
        delivered(r.0) == Seq::<Seq<u8>>::empty(),
        accepted(r.1) == Seq::<Seq<u8>>::empty(),
{
    nolock::queues::mpmc::bounded::scq::queue::<RxBufferPacket>(capacity)
}

/// Relies on nolock's `Sender::try_enqueue`: never blocks; `Ok` means the
/// queue took the record, an error (queue full or closed) that it did not,
/// in which case nothing was added.
#[verifier::external_body]
pub(crate) fn offer(sender: &mut Sender<RxBufferPacket>, packet: RxBufferPacket) -> (taken: bool)
    ensures
        taken ==> accepted(*final(sender)) == accepted(*old(sender)).push(packet.bytes()),
        !taken ==> accepted(*final(sender)) == accepted(*old(sender)),
{
    sender.try_enqueue(packet).is_ok()
}

/// Relies on nolock's `Receiver::try_dequeue`: never blocks; returns the
/// record it takes off the queue, or an error when there is none, in which
/// case nothing was taken.
#[verifier::external_body]
pub(crate) fn take(receiver: &mut Receiver<RxBufferPacket>) -> (r: Option<RxBufferPacket>)
    ensures
        r matches Some(p) ==> delivered(*final(receiver)) == delivered(*old(receiver)).push(p.bytes()),
        r is None ==> delivered(*final(receiver)) == delivered(*old(receiver)),
{
    receiver.try_dequeue().ok()
}

} // verus!
