use vstd::prelude::*;
use nolock::queues::mpmc::bounded::scq::Sender;
use crate::registers::{Register, RegisterWrite};
use crate::rx_ring::{
    RxRing, RxBufferPacket, RxDrain, RxPop, RX_NUM_DESCRIPTORS, all_released, count_done,
    is_rejected, released, retrieve_packets, rx_ring_pop, frame_at, offered_frames, select,
    count_refused,
};
use crate::bridge::accepted;
use crate::descriptor::is_done;

verus! {

/// ICR: link status change.
pub const ICR_LSC: u32 = 0x04;
/// ICR: receive descriptor minimum threshold reached.
pub const ICR_RXDMT0: u32 = 0x10;
/// ICR: receiver overrun.
pub const ICR_RXO: u32 = 0x40;
/// ICR: receive timer (a single frame arrived).
pub const ICR_RXT0: u32 = 0x80;
/// STATUS: link up.
pub const STATUS_LU: u32 = 0x02;
/// The causes the driver unmasks: transmit written back and queue empty,
/// link status change, receive threshold, overrun and timer, MDI/O access
/// complete, PHY interrupt, general purpose interrupts 1 and 2, transmit
/// descriptor low threshold, small receive packet detected.
pub const INTERRUPT_MASK: u32 = 0x0001_F2D7;

/// Whether the cause word reports a link status change (bit 2).
pub open spec fn link_changed(icr: u32) -> bool {
    (icr / 4) % 2 == 1
}

/// Whether the cause word reports the receive timer (bit 7).
pub open spec fn receive_timer(icr: u32) -> bool {
    (icr / 128) % 2 == 1
}

/// Whether the STATUS value reports the link up (bit 1).
pub open spec fn is_link_up(status: u32) -> bool {
    (status / 2) % 2 == 1
}

/// Whether the cause word asks for the whole ring to be drained.
/// (receive minimum threshold, bit 4, or receiver overrun, bit 6).
pub open spec fn wants_drain(icr: u32) -> bool {
    (icr / 16) % 2 == 1 || (icr / 64) % 2 == 1
}

/// The IMS write that unmasks `INTERRUPT_MASK`.
pub fn enable_interrupts() -> (r: RegisterWrite)
    ensures
        r == (RegisterWrite { register: Register::Ims, value: INTERRUPT_MASK }),
{
    RegisterWrite { register: Register::Ims, value: INTERRUPT_MASK }
}

/// Whether the STATUS value reports the link up.
pub fn link_up(status: u32) -> (r: bool)
    ensures
        r == is_link_up(status),
{
    let r = status & STATUS_LU != 0;
    assert(r == ((status / 2) % 2 == 1)) by (bit_vector)
        requires
            r == (status & 2u32 != 0),
    ;
    r
}

/// The cause bits that the handler acts on.
pub fn interrupt_causes(icr: u32) -> (r: (bool, bool, bool))
    ensures
        r.0 == link_changed(icr),
        r.1 == wants_drain(icr),
        r.2 == receive_timer(icr),
{
    let lsc = icr & ICR_LSC != 0;
    let drain = icr & (ICR_RXDMT0 | ICR_RXO) != 0;
    let timer = icr & ICR_RXT0 != 0;
    assert(lsc == ((icr / 4) % 2 == 1) && drain == ((icr / 16) % 2 == 1 || (icr / 64) % 2 == 1)
        && timer == ((icr / 128) % 2 == 1)) by (bit_vector)
        requires
            lsc == (icr & 4u32 != 0),
            drain == (icr & (16u32 | 64u32) != 0),
            timer == (icr & 128u32 != 0),
    ;
    (lsc, drain, timer)
}

/// What one interrupt did, for the caller to finish: read STATUS and report
/// the link when it changed, and write `rdt` to the RDT register.
#[derive(Clone, Copy, Debug, PartialEq, Eq, Structural)]
pub struct InterruptReport {
    pub link_status_changed: bool,
    pub drain: Option<RxDrain>,
    pub pop: Option<RxPop>,
    pub rdt: u32,
}

/// Interrupt-context state: the receive ring, which nothing else touches,
/// and the producing end of the bridge queue. It takes no lock.
pub struct E1000InterruptHandler {
    rx_ring: RxRing,
    rx_buffer_producer: Sender<RxBufferPacket>,
}

impl E1000InterruptHandler {
    pub closed spec fn spec_ring(&self) -> RxRing {
        self.rx_ring
    }

    pub closed spec fn spec_producer(&self) -> Sender<RxBufferPacket> {
        self.rx_buffer_producer
    }

    pub open spec fn wf(&self) -> bool {
        self.spec_ring().wf()
    }

    pub fn new(rx_ring: RxRing, rx_buffer_producer: Sender<RxBufferPacket>) -> (r: Self)
        ensures
            r.spec_ring() == rx_ring,
            r.spec_producer() == rx_buffer_producer,
    {
        E1000InterruptHandler { rx_ring, rx_buffer_producer }
    }

    pub fn rx_ring(&self) -> (r: &RxRing)
        ensures
            *r == self.spec_ring(),
    {
        &self.rx_ring
    }

    pub fn rx_ring_mut(&mut self) -> (r: &mut RxRing)
        ensures
            *r == old(self).spec_ring(),
            final(self).spec_ring() == *final(r),
            final(self).spec_producer() == old(self).spec_producer(),
    {
        &mut self.rx_ring
    }

    /// Acts on the cause word `icr` (read from ICR, which clears it): on a
    /// receive threshold or overrun, drains every completed descriptor; then,
    /// on a receive timer, processes the descriptor at the tail. Frames go to
    /// the bridge queue without blocking.
    pub fn trigger(&mut self, icr: u32) -> (r: InterruptReport)
        requires
            old(self).wf(),
        ensures
            final(self).wf(),
            r.link_status_changed == link_changed(icr),
            r.drain is Some <==> wants_drain(icr),
            r.pop is Some <==> receive_timer(icr),
            r.rdt == final(self).spec_ring().spec_tail(),
            wants_drain(icr) ==> final(self).spec_ring().spec_descriptors() == all_released(
                old(self).spec_ring().spec_descriptors(),
            ) && final(self).spec_ring().spec_tail() == (old(self).spec_ring().spec_tail()
                + count_done(
                old(self).spec_ring().spec_descriptors(),
                old(self).spec_ring().spec_tail(),
                RX_NUM_DESCRIPTORS as int,
            )) % RX_NUM_DESCRIPTORS as int,
            wants_drain(icr) ==> exists|taken: Seq<bool>|
                #![trigger select(offered_frames(old(self).spec_ring(), RX_NUM_DESCRIPTORS as int), taken)]
                taken.len() == offered_frames(old(self).spec_ring(), RX_NUM_DESCRIPTORS as int).len()
                && accepted(final(self).spec_producer()) == accepted(old(self).spec_producer()) + select(
                    offered_frames(old(self).spec_ring(), RX_NUM_DESCRIPTORS as int),
                    taken,
                ) && r.drain == Some(RxDrain { dropped: count_refused(taken) as usize, ..r.drain->0 }),
            wants_drain(icr) && receive_timer(icr) ==> r.pop == Some(RxPop::Idle),
            !wants_drain(icr) && !receive_timer(icr) ==> final(self).spec_ring() == old(self).spec_ring()
                && accepted(final(self).spec_producer()) == accepted(old(self).spec_producer()),
            !wants_drain(icr) && receive_timer(icr) ==> ({
                let t = old(self).spec_ring().spec_tail();
                let d = old(self).spec_ring().spec_descriptors()[t];
                let frame = frame_at(old(self).spec_ring(), t);
                let acc0 = accepted(old(self).spec_producer());
                let acc1 = accepted(final(self).spec_producer());
                &&& !is_done(d.status) ==> r.pop == Some(RxPop::Idle)
                    && final(self).spec_ring().spec_descriptors() == old(self).spec_ring().spec_descriptors()
                    && final(self).spec_ring().spec_tail() == t && acc1 == acc0
                &&& is_done(d.status) ==> final(self).spec_ring().spec_descriptors()
                    == old(self).spec_ring().spec_descriptors().update(t, released(d))
                    && final(self).spec_ring().spec_tail() == (t + 1) % RX_NUM_DESCRIPTORS as int
                &&& is_done(d.status) && is_rejected(d) ==> r.pop == Some(RxPop::Rejected) && acc1 == acc0
                &&& is_done(d.status) && !is_rejected(d) ==> (r.pop == Some(RxPop::Delivered) && acc1
                    == acc0.push(frame)) || (r.pop == Some(RxPop::Dropped) && acc1 == acc0)
            }),
    {
        let (lsc, drain, timer) = interrupt_causes(icr);
        let drained = if drain {
            Some(retrieve_packets(&mut self.rx_ring, &mut self.rx_buffer_producer))
        } else {
            None
        };
        let popped = if timer {
            Some(rx_ring_pop(&mut self.rx_ring, &mut self.rx_buffer_producer))
        } else {
            None
        };
        let rdt = self.rx_ring.tail() as u32;
        InterruptReport { link_status_changed: lsc, drain: drained, pop: popped, rdt }
    }
}

} // verus!
