use vstd::prelude::*;
use nolock::queues::mpmc::bounded::scq::Sender;
use crate::bridge::{accepted, offer};
use crate::descriptor::{E1000RxDescriptor, STATUS_DD, is_done, status_done};
use crate::registers::{Register, RegisterWrite};
use crate::tx_ring::{DESCRIPTOR_BYTES, low_half, high_half, split_address};

verus! {

/// Number of descriptors in the receive ring.
pub const RX_NUM_DESCRIPTORS: usize = 128;
/// Size of each receive buffer; the device is told 2048-byte buffers.
pub const RX_BUFFER_SIZE: usize = 2048;
/// Bytes that one received-packet record holds: a whole receive buffer,
/// so that every full-size frame (MTU plus Ethernet header) fits.
pub const RX_PACKET_CAPACITY: usize = 2048;

/// RCTL: receiver enable.
pub const RCTL_EN: u32 = 0x02;
/// RCTL: loopback mode field (bits 6 and 7).
pub const RCTL_LBM: u32 = 0xC0;
/// RCTL: minimum-threshold size field, cleared to the default.
pub const RCTL_RDMTS: u32 = 0x0B00;
/// RCTL: buffer size field, cleared to select 2048-byte buffers.
pub const RCTL_BSIZE: u32 = 0x000B_0000;
/// RCTL: accept broadcast frames.
pub const RCTL_BAM: u32 = 0x8000;

/// A received frame copied out of its receive buffer: a fixed-size record,
/// so that handing it on needs no allocation.
pub struct RxBufferPacket {
    pub length: usize,
    pub data: [u8; 2048],
}

impl RxBufferPacket {
    /// The frame's bytes: the first `length` bytes of the record.
    pub open spec fn bytes(&self) -> Seq<u8> {
        self.data@.take(if self.length <= RX_PACKET_CAPACITY { self.length as int } else { RX_PACKET_CAPACITY as int })
    }
}

/// Whether a completed descriptor is dropped instead of delivered: the
/// device reported an error, or the frame does not fit in a record.
pub open spec fn is_rejected(d: E1000RxDescriptor) -> bool {
    d.errors != 0 || d.length > RX_PACKET_CAPACITY
}

/// The descriptor handed back to the device: status cleared.
pub open spec fn released(d: E1000RxDescriptor) -> E1000RxDescriptor {
    E1000RxDescriptor { status: 0, ..d }
}

/// Position of slot `i` counted from `tail` around the receive ring.
pub open spec fn rx_offset(i: int, tail: int) -> int {
    (i - tail) % RX_NUM_DESCRIPTORS as int
}

/// Slot `k` places after `tail`.
pub open spec fn rx_slot(tail: int, k: int) -> int {
    (tail + k) % RX_NUM_DESCRIPTORS as int
}

/// Completed descriptors among the first `k` slots counted from `tail`.
pub open spec fn count_done(descs: Seq<E1000RxDescriptor>, tail: int, k: int) -> int
    decreases k,
{
    if k <= 0 {
        0
    } else {
        count_done(descs, tail, k - 1) + if is_done(descs[rx_slot(tail, k - 1)].status) {
            1int
        } else {
            0int
        }
    }
}

/// Completed and rejected descriptors among the first `k` slots counted
/// from `tail`.
pub open spec fn count_rejected(descs: Seq<E1000RxDescriptor>, tail: int, k: int) -> int
    decreases k,
{
    if k <= 0 {
        0
    } else {
        count_rejected(descs, tail, k - 1) + if is_done(descs[rx_slot(tail, k - 1)].status)
            && is_rejected(descs[rx_slot(tail, k - 1)]) {
            1int
        } else {
            0int
        }
    }
}

/// Every completed descriptor released, every other one as it was.
pub open spec fn all_released(descs: Seq<E1000RxDescriptor>) -> Seq<E1000RxDescriptor> {
    Seq::new(
        descs.len(),
        |i: int|
            if is_done(descs[i].status) {
                released(descs[i])
            } else {
                descs[i]
            },
    )
}

/// What one pass over the receive ring did.
#[derive(Clone, Copy, Debug, PartialEq, Eq, Structural)]
pub struct RxDrain {
    /// Completed descriptors handed back to the device.
    pub processed: usize,
    /// Frames dropped for a device error or an oversized length.
    pub rejected: usize,
    /// Frames dropped because the bridge queue was full.
    pub dropped: usize,
}

/// What happened to the descriptor at the tail.
#[derive(Clone, Copy, Debug, PartialEq, Eq, Structural)]
pub enum RxPop {
    /// The descriptor is not complete; nothing changed.
    Idle,
    /// The frame was dropped for an error or its length.
    Rejected,
    /// The frame was put on the bridge queue.
    Delivered,
    /// The bridge queue was full and the frame was dropped.
    Dropped,
}

/// The receive descriptor ring, the tail that software last handed to the
/// device, and per slot the bytes of the frame last received there. The
/// DMA memory that the device writes into belongs to the caller: a frame
/// enters the ring only through `receive_frame`, which copies it in.
pub struct RxRing {
    descriptors: Vec<E1000RxDescriptor>,
    buffers: Vec<Vec<u8>>,
    tail: usize,
}

impl RxRing {
    pub closed spec fn spec_descriptors(&self) -> Seq<E1000RxDescriptor> {
        self.descriptors@
    }

    pub closed spec fn spec_buffer(&self, i: int) -> Seq<u8> {
        self.buffers@[i]@
    }

    pub closed spec fn spec_tail(&self) -> int {
        self.tail as int
    }

    proof fn lemma_same_buffers(a: RxRing, b: RxRing)
        requires
            a.wf(),
            b.buffers@ == a.buffers@,
            b.descriptors@.len() == RX_NUM_DESCRIPTORS,
            b.tail < RX_NUM_DESCRIPTORS,
        ensures
            b.wf(),
    {
        assert forall|j: int| 0 <= j < RX_NUM_DESCRIPTORS implies #[trigger] b.spec_buffer(j).len() == RX_BUFFER_SIZE by {
            assert(b.spec_buffer(j) == a.spec_buffer(j));
        }
    }

    /// One frame buffer per slot.
    pub closed spec fn has_all_buffers(&self) -> bool {
        self.buffers@.len() == RX_NUM_DESCRIPTORS
    }

    pub open spec fn wf(&self) -> bool {
        &&& self.spec_descriptors().len() == RX_NUM_DESCRIPTORS
        &&& self.has_all_buffers()
        &&& forall|i: int| 0 <= i < RX_NUM_DESCRIPTORS ==> (#[trigger] self.spec_buffer(i)).len() == RX_BUFFER_SIZE
        &&& 0 <= self.spec_tail() < RX_NUM_DESCRIPTORS
    }

    pub fn tail(&self) -> (r: usize)
        ensures
            r == self.spec_tail(),
            self.wf() ==> r < RX_NUM_DESCRIPTORS,
    {
        self.tail
    }

    pub fn descriptors(&self) -> (r: &Vec<E1000RxDescriptor>)
        ensures
            r@ == self.spec_descriptors(),
    {
        &self.descriptors
    }

    /// The bytes of the frame last received in slot `i`, zero-padded to the
    /// buffer size.
    pub fn buffer(&self, i: usize) -> (r: &Vec<u8>)
        requires
            self.wf(),
            i < RX_NUM_DESCRIPTORS,
        ensures
            r@ == self.spec_buffer(i as int),
            r@.len() == RX_BUFFER_SIZE,
    {
        &self.buffers[i]
    }

    /// Records `address` as the DMA address of the buffer that the device
    /// writes slot `i`'s frames into.
    pub fn set_buffer_address(&mut self, i: usize, address: u64)
        requires
            old(self).wf(),
            i < RX_NUM_DESCRIPTORS,
        ensures
            final(self).wf(),
            final(self).spec_descriptors() == old(self).spec_descriptors().update(
                i as int,
                E1000RxDescriptor { buffer_addr: address, ..old(self).spec_descriptors()[i as int] },
            ),
            final(self).spec_tail() == old(self).spec_tail(),
            forall|j: int| 0 <= j < RX_NUM_DESCRIPTORS ==> final(self).spec_buffer(j) == old(self).spec_buffer(j),
    {
        let ghost before = *self;
        let mut d = self.descriptors[i];
        d.buffer_addr = address;
        self.descriptors.set(i, d);
        proof {
            RxRing::lemma_same_buffers(before, *self);
        }
    }

    /// Hands slot `i` back to the device: status cleared, tail advanced by one.
    fn release_descriptor(&mut self, i: usize)
        requires
            old(self).wf(),
            i < RX_NUM_DESCRIPTORS,
        ensures
            final(self).wf(),
            final(self).spec_descriptors() == old(self).spec_descriptors().update(
                i as int,
                released(old(self).spec_descriptors()[i as int]),
            ),
            final(self).buffers@ == old(self).buffers@,
            final(self).spec_tail() == (old(self).spec_tail() + 1) % RX_NUM_DESCRIPTORS as int,
    {
        let ghost before = *self;
        let mut d = self.descriptors[i];
        d.status = 0;
        self.descriptors.set(i, d);
        self.tail = if self.tail + 1 == RX_NUM_DESCRIPTORS { 0 } else { self.tail + 1 };
        proof {
            RxRing::lemma_same_buffers(before, *self);
        }
    }

    /// Takes the completed descriptor `i` off the ring: hands it back to
    /// the device and returns its frame, copied into a record, unless the
    /// frame is rejected.
    pub fn take_descriptor(&mut self, i: usize) -> (r: Option<RxBufferPacket>)
        requires
            old(self).wf(),
            i < RX_NUM_DESCRIPTORS,
            is_done(old(self).spec_descriptors()[i as int].status),
        ensures
            final(self).wf(),
            final(self).spec_descriptors() == old(self).spec_descriptors().update(
                i as int,
                released(old(self).spec_descriptors()[i as int]),
            ),
            forall|j: int| 0 <= j < RX_NUM_DESCRIPTORS ==> final(self).spec_buffer(j) == old(self).spec_buffer(j),
            final(self).spec_tail() == (old(self).spec_tail() + 1) % RX_NUM_DESCRIPTORS as int,
            r is None <==> is_rejected(old(self).spec_descriptors()[i as int]),
            r matches Some(p) ==> p.length == old(self).spec_descriptors()[i as int].length
                && p.bytes() == old(self).spec_buffer(i as int).take(p.length as int),
    {
        let d = self.descriptors[i];
        assert(self.spec_buffer(i as int).len() == RX_BUFFER_SIZE);
        let r = if d.errors != 0 || d.length as usize > RX_PACKET_CAPACITY {
            None
        } else {
            Some(packet_from_buffer(&self.buffers[i], d.length as usize))
        };
        self.release_descriptor(i);
        r
    }
}

/// The first `length` bytes of `buffer` in a record; the rest of the record
/// is zero.
pub fn packet_from_buffer(buffer: &Vec<u8>, length: usize) -> (p: RxBufferPacket)
    requires
        length <= RX_PACKET_CAPACITY,
        length <= buffer@.len(),
    ensures
        p.length == length,
        p.bytes() == buffer@.take(length as int),
        forall|j: int| length <= j < RX_PACKET_CAPACITY ==> p.data[j] == 0,
{
    let mut data = [0u8; 2048];
    let mut j: usize = 0;
    while j < length
        invariant
            j <= length,
            length <= RX_PACKET_CAPACITY,
            length <= buffer@.len(),
            forall|m: int| 0 <= m < j ==> data[m] == buffer@[m],
            forall|m: int| length <= m < RX_PACKET_CAPACITY ==> data[m] == 0,
        decreases length - j,
    {
        data[j] = buffer[j];
        j = j + 1;
    }
    let p = RxBufferPacket { length, data };
    assert(p.bytes() =~= buffer@.take(length as int));
    p
}

/// Receive control value for operation: `rctl` with the buffer-size and
/// threshold fields cleared (2048-byte buffers), broadcast accepted, and
/// loopback mode set when `loopback` holds.
pub open spec fn rx_settings(rctl: u32, loopback: bool) -> u32 {
    let base = (rctl & !(RCTL_BSIZE | RCTL_RDMTS)) | RCTL_BAM;
    if loopback {
        base | RCTL_LBM
    } else {
        base
    }
}

/// A receive ring of `RX_NUM_DESCRIPTORS` zeroed descriptors, each slot
/// with a zeroed `RX_BUFFER_SIZE`-byte frame buffer, whose descriptors the
/// device reads at `ring_address`; and the register writes that configure
/// the receive unit for it, given the current RCTL value: RCTL, base address
/// low and high, length in bytes, head 0 and tail at the last slot. The
/// caller allocates the DMA buffers and records their addresses with
/// `set_buffer_address` before the writes.
pub fn set_up_rx_desc_ring(rctl: u32, ring_address: u64, loopback: bool) -> (r: (RxRing, Vec<RegisterWrite>))
    ensures
        r.0.wf(),
        r.0.spec_descriptors().len() == RX_NUM_DESCRIPTORS,
        forall|i: int| 0 <= i < RX_NUM_DESCRIPTORS ==> r.0.spec_descriptors()[i] == E1000RxDescriptor::zeroed(),
        forall|i: int, j: int| 0 <= i < RX_NUM_DESCRIPTORS && 0 <= j < RX_BUFFER_SIZE ==> r.0.spec_buffer(i)[j] == 0,
        r.0.spec_tail() == RX_NUM_DESCRIPTORS - 1,
        r.1@ == seq![
            RegisterWrite { register: Register::Rctl, value: rx_settings(rctl, loopback) },
            RegisterWrite { register: Register::Rdbal, value: low_half(ring_address) as u32 },
            RegisterWrite { register: Register::Rdbah, value: high_half(ring_address) as u32 },
            RegisterWrite { register: Register::Rdlen, value: (RX_NUM_DESCRIPTORS * DESCRIPTOR_BYTES) as u32 },
            RegisterWrite { register: Register::Rdh, value: 0 },
            RegisterWrite { register: Register::Rdt, value: (RX_NUM_DESCRIPTORS - 1) as u32 },
        ],
{
    let mut descriptors: Vec<E1000RxDescriptor> = Vec::new();
    let mut buffers: Vec<Vec<u8>> = Vec::new();
    let mut i: usize = 0;
    while i < RX_NUM_DESCRIPTORS
        invariant
            i <= RX_NUM_DESCRIPTORS,
            descriptors@.len() == i,
            buffers@.len() == i,
            forall|k: int| 0 <= k < i ==> descriptors@[k] == E1000RxDescriptor::zeroed(),
            forall|k: int| 0 <= k < i ==> (#[trigger] buffers@[k])@.len() == RX_BUFFER_SIZE,
            forall|k: int, j: int| 0 <= k < i && 0 <= j < RX_BUFFER_SIZE ==> buffers@[k]@[j] == 0,
        decreases RX_NUM_DESCRIPTORS - i,
    {
        descriptors.push(E1000RxDescriptor::default());
        let mut buffer: Vec<u8> = Vec::new();
        let mut j: usize = 0;
        while j < RX_BUFFER_SIZE
            invariant
                j <= RX_BUFFER_SIZE,
                buffer@.len() == j,
                forall|m: int| 0 <= m < j ==> buffer@[m] == 0,
            decreases RX_BUFFER_SIZE - j,
        {
            buffer.push(0);
            j = j + 1;
        }
        buffers.push(buffer);
        i = i + 1;
    }
    let settings = if loopback {
        ((rctl & !(RCTL_BSIZE | RCTL_RDMTS)) | RCTL_BAM) | RCTL_LBM
    } else {
        (rctl & !(RCTL_BSIZE | RCTL_RDMTS)) | RCTL_BAM
    };
    let (low, high) = split_address(ring_address);
    let mut writes: Vec<RegisterWrite> = Vec::new();
    writes.push(RegisterWrite { register: Register::Rctl, value: settings });
    writes.push(RegisterWrite { register: Register::Rdbal, value: low });
    writes.push(RegisterWrite { register: Register::Rdbah, value: high });
    writes.push(RegisterWrite { register: Register::Rdlen, value: (RX_NUM_DESCRIPTORS * DESCRIPTOR_BYTES) as u32 });
    writes.push(RegisterWrite { register: Register::Rdh, value: 0 });
    writes.push(RegisterWrite { register: Register::Rdt, value: (RX_NUM_DESCRIPTORS - 1) as u32 });
    assert(writes@ =~= seq![
        RegisterWrite { register: Register::Rctl, value: rx_settings(rctl, loopback) },
        RegisterWrite { register: Register::Rdbal, value: low_half(ring_address) as u32 },
        RegisterWrite { register: Register::Rdbah, value: high_half(ring_address) as u32 },
        RegisterWrite { register: Register::Rdlen, value: (RX_NUM_DESCRIPTORS * DESCRIPTOR_BYTES) as u32 },
        RegisterWrite { register: Register::Rdh, value: 0 },
        RegisterWrite { register: Register::Rdt, value: (RX_NUM_DESCRIPTORS - 1) as u32 },
    ]);
    (RxRing { descriptors, buffers, tail: RX_NUM_DESCRIPTORS - 1 }, writes)
}

/// The RCTL write that enables the receive unit, given the current value.
pub fn enable_receive(rctl: u32) -> (r: RegisterWrite)
    ensures
        r == (RegisterWrite { register: Register::Rctl, value: rctl | RCTL_EN }),
{
    RegisterWrite { register: Register::Rctl, value: rctl | RCTL_EN }
}

/// Offers `packet` to the bridge queue without blocking; returns whether
/// the queue took it. A full queue drops the packet and keeps what it holds.
pub fn enqueue_packet(rx_buffer_producer: &mut Sender<RxBufferPacket>, packet: RxBufferPacket) -> (taken: bool)
    ensures
        taken ==> accepted(*final(rx_buffer_producer)) == accepted(*old(rx_buffer_producer)).push(packet.bytes()),
        !taken ==> accepted(*final(rx_buffer_producer)) == accepted(*old(rx_buffer_producer)),
{
    offer(rx_buffer_producer, packet)
}

/// The frame held in slot `i` of `ring`: the first `length` bytes of its
/// buffer, `length` as the descriptor reports it.
pub open spec fn frame_at(ring: RxRing, i: int) -> Seq<u8> {
    ring.spec_buffer(i).take(ring.spec_descriptors()[i].length as int)
}

/// The frames that a pass over `ring` offers to the bridge queue, among the
/// first `k` slots counted from the tail: those of completed descriptors
/// that are not rejected, in ring order.
pub open spec fn offered_frames(ring: RxRing, k: int) -> Seq<Seq<u8>>
    decreases k,
{
    if k <= 0 {
        seq![]
    } else {
        let i = rx_slot(ring.spec_tail(), k - 1);
        let d = ring.spec_descriptors()[i];
        if is_done(d.status) && !is_rejected(d) {
            offered_frames(ring, k - 1).push(frame_at(ring, i))
        } else {
            offered_frames(ring, k - 1)
        }
    }
}

/// The frames of `frames` whose entry in `taken` is true, in order.
pub open spec fn select(frames: Seq<Seq<u8>>, taken: Seq<bool>) -> Seq<Seq<u8>>
    decreases frames.len(),
{
    if frames.len() == 0 || taken.len() == 0 {
        seq![]
    } else if taken.last() {
        select(frames.drop_last(), taken.drop_last()).push(frames.last())
    } else {
        select(frames.drop_last(), taken.drop_last())
    }
}

/// Number of false entries in `taken`.
pub open spec fn count_refused(taken: Seq<bool>) -> int
    decreases taken.len(),
{
    if taken.len() == 0 {
        0
    } else {
        count_refused(taken.drop_last()) + if taken.last() { 0int } else { 1int }
    }
}

/// Hands every completed descriptor back to the device and offers each
/// frame that is not rejected to the bridge queue, visiting the slots in
/// ring order from the tail. The tail advances once per completed
/// descriptor; no descriptor is left with its done bit set. The queue takes
/// the offered frames that it has room for, in order; a rejected frame is
/// never offered, and a refused one is dropped and counted.
#[verifier::rlimit(80)]
pub fn retrieve_packets(receive_ring: &mut RxRing, rx_buffer_producer: &mut Sender<RxBufferPacket>) -> (r: RxDrain)
    requires
        old(receive_ring).wf(),
    ensures
        final(receive_ring).wf(),
        final(receive_ring).spec_descriptors() == all_released(old(receive_ring).spec_descriptors()),
        forall|j: int| 0 <= j < RX_NUM_DESCRIPTORS ==> final(receive_ring).spec_buffer(j) == old(receive_ring).spec_buffer(j),
        r.processed == count_done(old(receive_ring).spec_descriptors(), old(receive_ring).spec_tail(), RX_NUM_DESCRIPTORS as int),
        r.rejected == count_rejected(old(receive_ring).spec_descriptors(), old(receive_ring).spec_tail(), RX_NUM_DESCRIPTORS as int),
        exists|taken: Seq<bool>|
            #![trigger select(offered_frames(*old(receive_ring), RX_NUM_DESCRIPTORS as int), taken)]
            taken.len() == offered_frames(*old(receive_ring), RX_NUM_DESCRIPTORS as int).len()
            && accepted(*final(rx_buffer_producer)) == accepted(*old(rx_buffer_producer)) + select(
                offered_frames(*old(receive_ring), RX_NUM_DESCRIPTORS as int),
                taken,
            ) && r.dropped == count_refused(taken),
        final(receive_ring).spec_tail() == (old(receive_ring).spec_tail() + r.processed) % RX_NUM_DESCRIPTORS as int,
        forall|i: int| 0 <= i < RX_NUM_DESCRIPTORS ==> !is_done(#[trigger] final(receive_ring).spec_descriptors()[i].status),
{
    let ghost ring0 = *receive_ring;
    let ghost d0 = receive_ring.spec_descriptors();
    let ghost taken: Seq<bool> = seq![];
    let start = receive_ring.tail;
    let mut processed: usize = 0;
    let mut rejected: usize = 0;
    let mut dropped: usize = 0;
    let mut k: usize = 0;
    while k < RX_NUM_DESCRIPTORS
        invariant
            receive_ring.wf(),
            k <= RX_NUM_DESCRIPTORS,
            0 <= start < RX_NUM_DESCRIPTORS,
            ring0 == *old(receive_ring),
            d0 == old(receive_ring).spec_descriptors(),
            start == old(receive_ring).spec_tail(),
            forall|j: int| 0 <= j < RX_NUM_DESCRIPTORS ==> receive_ring.spec_buffer(j) == old(receive_ring).spec_buffer(j),
            receive_ring.spec_descriptors() == Seq::new(
                RX_NUM_DESCRIPTORS as nat,
                |i: int|
                    if rx_offset(i, start as int) < k && is_done(d0[i].status) {
                        released(d0[i])
                    } else {
                        d0[i]
                    },
            ),
            processed == count_done(d0, start as int, k as int),
            rejected == count_rejected(d0, start as int, k as int),
            processed <= k,
            rejected + dropped <= processed,
            taken.len() == offered_frames(ring0, k as int).len(),
            accepted(*rx_buffer_producer) == accepted(*old(rx_buffer_producer)) + select(offered_frames(ring0, k as int), taken),
            dropped == count_refused(taken),
            receive_ring.spec_tail() == (start + processed) % RX_NUM_DESCRIPTORS as int,
        decreases RX_NUM_DESCRIPTORS - k,
    {
        let slot = (start + k) % RX_NUM_DESCRIPTORS;
        proof {
            assert(rx_offset(slot as int, start as int) == k);
            assert(receive_ring.spec_descriptors()[slot as int] == d0[slot as int]);
            assert(rx_slot(ring0.spec_tail(), k as int) == slot);
        }
        let ghost offered_before = offered_frames(ring0, k as int);
        if status_done(receive_ring.descriptors[slot].status) {
            let taken_packet = receive_ring.take_descriptor(slot);
            match taken_packet {
                Some(packet) => {
                    let ghost frame = packet.bytes();
                    proof {
                        assert(frame == frame_at(ring0, slot as int));
                        assert(offered_frames(ring0, k as int + 1) == offered_before.push(frame));
                    }
                    let ghost acc_before = accepted(*rx_buffer_producer);
                    let ok = enqueue_packet(rx_buffer_producer, packet);
                    proof {
                        let t2 = taken.push(ok);
                        let f2 = offered_before.push(frame);
                        assert(t2.drop_last() == taken);
                        assert(f2.drop_last() == offered_before);
                        assert(select(f2, t2) == if ok { select(offered_before, taken).push(frame) } else { select(offered_before, taken) });
                        assert(count_refused(t2) == count_refused(taken) + if ok { 0int } else { 1int });
                        if ok {
                            assert(accepted(*rx_buffer_producer) =~= accepted(*old(rx_buffer_producer)) + select(f2, t2));
                        }
                        taken = t2;
                    }
                    if !ok {
                        dropped = dropped + 1;
                    }
                },
                None => {
                    proof {
                        assert(offered_frames(ring0, k as int + 1) == offered_before);
                    }
                    rejected = rejected + 1;
                },
            }
            processed = processed + 1;
            proof {
                vstd::arithmetic::div_mod::lemma_add_mod_noop(start + processed - 1, 1, 128);
                vstd::arithmetic::div_mod::lemma_mod_twice(start + processed - 1, 128);
            }
        } else {
            proof {
                assert(offered_frames(ring0, k as int + 1) == offered_before);
            }
        }
        proof {
            assert forall|i: int| 0 <= i < RX_NUM_DESCRIPTORS implies (rx_offset(i, start as int) == k <==> i == slot) by {}
            assert(receive_ring.spec_descriptors() =~= Seq::new(
                RX_NUM_DESCRIPTORS as nat,
                |i: int|
                    if rx_offset(i, start as int) < k + 1 && is_done(d0[i].status) {
                        released(d0[i])
                    } else {
                        d0[i]
                    },
            ));
        }
        k = k + 1;
    }
    proof {
        assert(receive_ring.spec_descriptors() =~= all_released(d0));
    }
    RxDrain { processed, rejected, dropped }
}

/// Processes the descriptor at the tail, if the device has completed it:
/// hands it back and offers its frame to the bridge queue unless rejected.
/// Nothing is offered when the descriptor is not complete or is rejected.
pub fn rx_ring_pop(receive_ring: &mut RxRing, rx_buffer_producer: &mut Sender<RxBufferPacket>) -> (r: RxPop)
    requires
        old(receive_ring).wf(),
    ensures
        final(receive_ring).wf(),
        ({
            let t = old(receive_ring).spec_tail();
            let d = old(receive_ring).spec_descriptors()[t];
            let frame = frame_at(*old(receive_ring), t);
            let acc0 = accepted(*old(rx_buffer_producer));
            let acc1 = accepted(*final(rx_buffer_producer));
            &&& !is_done(d.status) ==> r == RxPop::Idle && final(receive_ring).spec_descriptors() == old(receive_ring).spec_descriptors()
                && final(receive_ring).spec_tail() == t && acc1 == acc0
            &&& is_done(d.status) ==> final(receive_ring).spec_descriptors() == old(receive_ring).spec_descriptors().update(t, released(d))
                && final(receive_ring).spec_tail() == (t + 1) % RX_NUM_DESCRIPTORS as int
            &&& is_done(d.status) && is_rejected(d) ==> r == RxPop::Rejected && acc1 == acc0
            &&& is_done(d.status) && !is_rejected(d) ==> (r == RxPop::Delivered && acc1 == acc0.push(frame))
                || (r == RxPop::Dropped && acc1 == acc0)
        }),
        forall|j: int| 0 <= j < RX_NUM_DESCRIPTORS ==> final(receive_ring).spec_buffer(j) == old(receive_ring).spec_buffer(j),
{
    let t = receive_ring.tail;
    if !status_done(receive_ring.descriptors[t].status) {
        return RxPop::Idle;
    }
    match receive_ring.take_descriptor(t) {
        None => RxPop::Rejected,
        Some(packet) => {
            if enqueue_packet(rx_buffer_producer, packet) {
                RxPop::Delivered
            } else {
                RxPop::Dropped
            }
        },
    }
}

/// Hands every completed descriptor back to the device without reading
/// its frame; each keeps its buffer. Returns how many there were; the tail
/// advances by that many.
pub fn replenish_rx_desc_ring(receive_ring: &mut RxRing) -> (n: usize)
    requires
        old(receive_ring).wf(),
    ensures
        final(receive_ring).wf(),
        final(receive_ring).spec_descriptors() == all_released(old(receive_ring).spec_descriptors()),
        forall|j: int| 0 <= j < RX_NUM_DESCRIPTORS ==> final(receive_ring).spec_buffer(j) == old(receive_ring).spec_buffer(j),
        n == count_done(old(receive_ring).spec_descriptors(), old(receive_ring).spec_tail(), RX_NUM_DESCRIPTORS as int),
        final(receive_ring).spec_tail() == (old(receive_ring).spec_tail() + n) % RX_NUM_DESCRIPTORS as int,
{
    let ghost d0 = receive_ring.spec_descriptors();
    let ghost b0 = receive_ring.buffers@;
    let start = receive_ring.tail;
    let mut n: usize = 0;
    let mut k: usize = 0;
    while k < RX_NUM_DESCRIPTORS
        invariant
            receive_ring.wf(),
            k <= RX_NUM_DESCRIPTORS,
            0 <= start < RX_NUM_DESCRIPTORS,
            d0 == old(receive_ring).spec_descriptors(),
            b0 == old(receive_ring).buffers@,
            start == old(receive_ring).spec_tail(),
            receive_ring.buffers@ == b0,
            receive_ring.spec_descriptors() == Seq::new(
                RX_NUM_DESCRIPTORS as nat,
                |i: int|
                    if rx_offset(i, start as int) < k && is_done(d0[i].status) {
                        released(d0[i])
                    } else {
                        d0[i]
                    },
            ),
            n == count_done(d0, start as int, k as int),
            n <= k,
            receive_ring.spec_tail() == (start + n) % RX_NUM_DESCRIPTORS as int,
        decreases RX_NUM_DESCRIPTORS - k,
    {
        let slot = (start + k) % RX_NUM_DESCRIPTORS;
        proof {
            assert(rx_offset(slot as int, start as int) == k);
            assert(receive_ring.spec_descriptors()[slot as int] == d0[slot as int]);
        }
        if status_done(receive_ring.descriptors[slot].status) {
            receive_ring.release_descriptor(slot);
            n = n + 1;
            proof {
                vstd::arithmetic::div_mod::lemma_add_mod_noop(start + n - 1, 1, 128);
                vstd::arithmetic::div_mod::lemma_mod_twice(start + n - 1, 128);
            }
        }
        proof {
            assert forall|i: int| 0 <= i < RX_NUM_DESCRIPTORS implies (rx_offset(i, start as int) == k <==> i == slot) by {}
            assert(receive_ring.spec_descriptors() =~= Seq::new(
                RX_NUM_DESCRIPTORS as nat,
                |i: int|
                    if rx_offset(i, start as int) < k + 1 && is_done(d0[i].status) {
                        released(d0[i])
                    } else {
                        d0[i]
                    },
            ));
        }
        k = k + 1;
    }
    proof {
        assert(receive_ring.spec_descriptors() =~= all_released(d0));
    }
    n
}

impl RxRing {
    /// What the device does when a frame arrives in slot `slot`: it writes
    /// the frame at the start of the slot's buffer, its length and error
    /// flags into the descriptor, and sets the done bit.
    pub fn receive_frame(&mut self, slot: usize, frame: &Vec<u8>, errors: u8)
        requires
            old(self).wf(),
            slot < RX_NUM_DESCRIPTORS,
            frame@.len() <= RX_BUFFER_SIZE,
        ensures
            final(self).wf(),
            final(self).spec_descriptors() == old(self).spec_descriptors().update(
                slot as int,
                E1000RxDescriptor {
                    length: frame@.len() as u16,
                    status: STATUS_DD,
                    errors,
                    ..old(self).spec_descriptors()[slot as int]
                },
            ),
            final(self).spec_buffer(slot as int).take(frame@.len() as int) == frame@,
            forall|j: int| 0 <= j < RX_NUM_DESCRIPTORS && j != slot ==> final(self).spec_buffer(j) == old(self).spec_buffer(j),
            final(self).spec_tail() == old(self).spec_tail(),
    {
        let mut buffer: Vec<u8> = Vec::new();
        let mut j: usize = 0;
        while j < RX_BUFFER_SIZE
            invariant
                j <= RX_BUFFER_SIZE,
                frame@.len() <= RX_BUFFER_SIZE,
                buffer@.len() == j,
                forall|m: int| 0 <= m < j && m < frame@.len() ==> buffer@[m] == frame@[m],
            decreases RX_BUFFER_SIZE - j,
        {
            if j < frame.len() {
                buffer.push(frame[j]);
            } else {
                buffer.push(0);
            }
            j = j + 1;
        }
        assert(buffer@.take(frame@.len() as int) =~= frame@);
        let ghost before = *self;
        self.buffers.set(slot, buffer);
        proof {
            assert forall|j: int| 0 <= j < RX_NUM_DESCRIPTORS implies #[trigger] self.spec_buffer(j).len() == RX_BUFFER_SIZE by {
                if j != slot {
                    assert(self.spec_buffer(j) == before.spec_buffer(j));
                }
            }
        }
        let mut d = self.descriptors[slot];
        d.length = frame.len() as u16;
        d.status = STATUS_DD;
        d.errors = errors;
        let ghost mid = *self;
        self.descriptors.set(slot, d);
        proof {
            RxRing::lemma_same_buffers(mid, *self);
        }
    }
}

/// Loopback without the device: delivers `frame`, as the transmit side
/// sent it, into the receive slot `head` the way the device would, and
/// returns the head that follows.
pub fn fake_transmit_lbm(rx_ring: &mut RxRing, frame: &Vec<u8>, head: usize) -> (next: usize)
    requires
        old(rx_ring).wf(),
        head < RX_NUM_DESCRIPTORS,
        frame@.len() <= RX_BUFFER_SIZE,
    ensures
        final(rx_ring).wf(),
        final(rx_ring).spec_descriptors() == old(rx_ring).spec_descriptors().update(
            head as int,
            E1000RxDescriptor {
                length: frame@.len() as u16,
                status: STATUS_DD,
                errors: 0,
                ..old(rx_ring).spec_descriptors()[head as int]
            },
        ),
        final(rx_ring).spec_buffer(head as int).take(frame@.len() as int) == frame@,
        forall|j: int| 0 <= j < RX_NUM_DESCRIPTORS && j != head ==> final(rx_ring).spec_buffer(j) == old(rx_ring).spec_buffer(j),
        final(rx_ring).spec_tail() == old(rx_ring).spec_tail(),
        next == (head + 1) % RX_NUM_DESCRIPTORS as int,
{
    rx_ring.receive_frame(head, frame, 0);
    (head + 1) % RX_NUM_DESCRIPTORS
}

} // verus!
