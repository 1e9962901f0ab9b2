use vstd::prelude::*;
use crate::descriptor::E1000TxDescriptor;
use crate::registers::{Register, RegisterWrite};

verus! {

/// Number of descriptors in the transmit ring.
pub const TX_NUM_DESCRIPTORS: usize = 64;
/// Size of one descriptor in bytes, as the device lays the ring out.
pub const DESCRIPTOR_BYTES: usize = 16;
/// Most bytes that one transmit descriptor points at.
pub const MAX_DESCRIPTOR_SIZE: usize = 4096;
/// Slots kept free between the tail and the head beyond what a packet needs.
pub const SAFETY_MARGIN: usize = 1;
/// Transmit command: end of packet.
pub const TXD_CMD_EOP: u8 = 0x01;
/// Transmit command: report status.
pub const TXD_CMD_RS: u8 = 0x08;

/// TCTL: transmit enable.
pub const TCTL_EN: u32 = 0x02;
/// TCTL: pad short packets.
pub const TCTL_PSP: u32 = 0x08;
/// TCTL: collision threshold field.
pub const TCTL_CT: u32 = 0xF0;
/// TCTL: collision distance for full duplex.
pub const TCTL_COLD_FD: u32 = 0x0004_0000;

/// Number of payload descriptors for `payload_len` bytes.
pub open spec fn chunk_count(payload_len: int) -> int {
    (payload_len + MAX_DESCRIPTOR_SIZE - 1) / MAX_DESCRIPTOR_SIZE as int
}

/// One outbound packet as the ring sees it: the DMA address of its bytes,
/// which start with `header_len` header bytes followed by `payload_len`
/// payload bytes.
#[derive(Clone, Copy, Debug, PartialEq, Eq, Structural)]
pub struct TxPacket {
    pub address: u64,
    pub header_len: u16,
    pub payload_len: u32,
}

impl TxPacket {
    /// The packet's bytes are addressable and it has a payload to end it.
    pub open spec fn wf(self) -> bool {
        &&& self.payload_len >= 1
        &&& self.address + self.header_len + self.payload_len <= u64::MAX
        &&& self.descriptor_count() <= TX_NUM_DESCRIPTORS - 1 - SAFETY_MARGIN
    }

    /// Descriptors the packet takes: one for the header, then one per chunk.
    pub open spec fn descriptor_count(self) -> int {
        1 + chunk_count(self.payload_len as int)
    }

    /// Descriptor `m` of the packet: the header first, with report-status
    /// and no end-of-packet; then the payload chunks in order, the last one
    /// marked end-of-packet.
    pub open spec fn descriptor(self, m: int) -> E1000TxDescriptor {
        if m == 0 {
            E1000TxDescriptor {
                buffer_addr: self.address,
                length: self.header_len,
                cso: 0,
                cmd: TXD_CMD_RS,
                status: 0,
                css: 0,
                special: 0,
            }
        } else {
            let j = m - 1;
            let rest = self.payload_len - j * MAX_DESCRIPTOR_SIZE;
            E1000TxDescriptor {
                buffer_addr: (self.address + self.header_len + j * MAX_DESCRIPTOR_SIZE) as u64,
                length: (if rest < MAX_DESCRIPTOR_SIZE { rest } else { MAX_DESCRIPTOR_SIZE as int }) as u16,
                cso: 0,
                cmd: if m == self.descriptor_count() - 1 { TXD_CMD_RS | TXD_CMD_EOP } else { TXD_CMD_RS },
                status: 0,
                css: 0,
                special: 0,
            }
        }
    }

    /// A packet at `address` with the given header and payload lengths, or
    /// `None` where those do not make a packet that the ring can take.
    pub fn new(address: u64, header_len: usize, payload_len: usize) -> (r: Option<TxPacket>)
        ensures
            r matches Some(p) ==> p.wf() && p.address == address && p.header_len == header_len
                && p.payload_len == payload_len,
            r is None <==> !(header_len <= u16::MAX && payload_len <= u32::MAX && (TxPacket {
                address,
                header_len: header_len as u16,
                payload_len: payload_len as u32,
            }).wf()),
    {
        if header_len > 0xFFFF || payload_len > 0xFFFF_FFFF || payload_len == 0 {
            return None;
        }
        if address > u64::MAX - header_len as u64 - payload_len as u64 {
            return None;
        }
        let chunks = (payload_len - 1) / MAX_DESCRIPTOR_SIZE + 1;
        if chunks + 1 > TX_NUM_DESCRIPTORS - 1 - SAFETY_MARGIN {
            return None;
        }
        Some(TxPacket { address, header_len: header_len as u16, payload_len: payload_len as u32 })
    }

    fn descriptor_exec(&self, m: u32) -> (r: E1000TxDescriptor)
        requires
            self.wf(),
            m < self.descriptor_count(),
        ensures
            r == self.descriptor(m as int),
    {
        if m == 0 {
            E1000TxDescriptor {
                buffer_addr: self.address,
                length: self.header_len,
                cso: 0,
                cmd: TXD_CMD_RS,
                status: 0,
                css: 0,
                special: 0,
            }
        } else {
            let j = (m - 1) as u64;
            assert(j * MAX_DESCRIPTOR_SIZE < self.payload_len) by (nonlinear_arith)
                requires
                    j < (self.payload_len + MAX_DESCRIPTOR_SIZE - 1) / MAX_DESCRIPTOR_SIZE as int,
                    self.payload_len >= 1,
            ;
            let rest = self.payload_len as u64 - j * MAX_DESCRIPTOR_SIZE as u64;
            let length = if rest < MAX_DESCRIPTOR_SIZE as u64 { rest } else { MAX_DESCRIPTOR_SIZE as u64 };
            let chunks = (self.payload_len - 1) / MAX_DESCRIPTOR_SIZE as u32 + 1;
            let cmd = if m == chunks { TXD_CMD_RS | TXD_CMD_EOP } else { TXD_CMD_RS };
            E1000TxDescriptor {
                buffer_addr: self.address + self.header_len as u64 + j * MAX_DESCRIPTOR_SIZE as u64,
                length: length as u16,
                cso: 0,
                cmd,
                status: 0,
                css: 0,
                special: 0,
            }
        }
    }
}

/// Position of slot `i` counted from `tail` around a ring.
pub open spec fn ring_offset(i: int, tail: int) -> int {
    (i - tail) % TX_NUM_DESCRIPTORS as int
}

/// Slots that software may still fill before the tail would meet `head`.
pub open spec fn free_slots(tail: int, head: int) -> int {
    (head - tail - 1) % TX_NUM_DESCRIPTORS as int
}

/// Whether the ring has room for `p`, safety margin included, while the
/// device reports `head`.
pub open spec fn has_room(tail: int, head: int, p: TxPacket) -> bool {
    p.descriptor_count() + SAFETY_MARGIN <= free_slots(tail, head)
}

/// The descriptors after `p` is posted at `tail`.
pub open spec fn post_descriptors(
    descs: Seq<E1000TxDescriptor>,
    tail: int,
    p: TxPacket,
) -> Seq<E1000TxDescriptor> {
    Seq::new(
        descs.len(),
        |i: int|
            if ring_offset(i, tail) < p.descriptor_count() {
                p.descriptor(ring_offset(i, tail))
            } else {
                descs[i]
            },
    )
}

/// Descriptors and tail after the packets `ps` are posted in order.
pub open spec fn post_all(
    descs: Seq<E1000TxDescriptor>,
    tail: int,
    ps: Seq<TxPacket>,
) -> (Seq<E1000TxDescriptor>, int)
    decreases ps.len(),
{
    if ps.len() == 0 {
        (descs, tail)
    } else {
        let (d, t) = post_all(descs, tail, ps.drop_last());
        (post_descriptors(d, t, ps.last()), (t + ps.last().descriptor_count()) % TX_NUM_DESCRIPTORS as int)
    }
}

/// Total descriptors of the packets `ps`.
pub open spec fn total_descriptors(ps: Seq<TxPacket>) -> int
    decreases ps.len(),
{
    if ps.len() == 0 {
        0
    } else {
        total_descriptors(ps.drop_last()) + ps.last().descriptor_count()
    }
}

/// The transmit descriptor ring and the tail that software last handed to
/// the device. The device consumes descriptors from its head up to the tail.
pub struct TxRing {
    descriptors: Vec<E1000TxDescriptor>,
    tail: usize,
}

impl TxRing {
    pub closed spec fn spec_descriptors(&self) -> Seq<E1000TxDescriptor> {
        self.descriptors@
    }

    pub closed spec fn spec_tail(&self) -> int {
        self.tail as int
    }

    pub open spec fn wf(&self) -> bool {
        &&& self.spec_descriptors().len() == TX_NUM_DESCRIPTORS
        &&& 0 <= self.spec_tail() < TX_NUM_DESCRIPTORS
    }

    pub fn tail(&self) -> (r: usize)
        ensures
            r == self.spec_tail(),
    {
        self.tail
    }

    pub fn descriptors(&self) -> (r: &Vec<E1000TxDescriptor>)
        ensures
            r@ == self.spec_descriptors(),
    {
        &self.descriptors
    }

    /// Posts `p` at the tail if the ring has room for it while the device
    /// reports `head`, and says whether it did. Every descriptor of the packet
    /// is written whole, status cleared, and the tail moves past them.
    pub fn post_packet(&mut self, p: &TxPacket, head: usize) -> (posted: bool)
        requires
            old(self).wf(),
            p.wf(),
            head < TX_NUM_DESCRIPTORS,
        ensures
            final(self).wf(),
            posted == has_room(old(self).spec_tail(), head as int, *p),
            posted ==> final(self).spec_descriptors() == post_descriptors(
                old(self).spec_descriptors(),
                old(self).spec_tail(),
                *p,
            ),
            posted ==> final(self).spec_tail() == (old(self).spec_tail() + p.descriptor_count())
                % TX_NUM_DESCRIPTORS as int,
            !posted ==> *final(self) == *old(self),
    {
        let free = (head + TX_NUM_DESCRIPTORS - self.tail - 1) % TX_NUM_DESCRIPTORS;
        let count = (p.payload_len - 1) / MAX_DESCRIPTOR_SIZE as u32 + 2;
        assert(count == p.descriptor_count());
        if (count as usize) + SAFETY_MARGIN > free {
            return false;
        }
        let ghost old_descs = self.descriptors@;
        let ghost tail0 = self.tail as int;
        let mut m: u32 = 0;
        let mut slot = self.tail;
        while m < count
            invariant
                self.wf(),
                self.tail == tail0,
                p.wf(),
                count == p.descriptor_count(),
                0 <= tail0 < TX_NUM_DESCRIPTORS,
                m <= count,
                slot == (tail0 + m) % TX_NUM_DESCRIPTORS as int,
                self.descriptors@ == Seq::new(
                    TX_NUM_DESCRIPTORS as nat,
                    |i: int|
                        if ring_offset(i, tail0) < m {
                            p.descriptor(ring_offset(i, tail0))
                        } else {
                            old_descs[i]
                        },
                ),
            decreases count - m,
        {
            let d = p.descriptor_exec(m);
            self.descriptors.set(slot, d);
            proof {
                assert forall|i: int| 0 <= i < TX_NUM_DESCRIPTORS implies (ring_offset(i, tail0) == m
                    <==> i == slot) by {}
                assert(self.descriptors@ =~= Seq::new(
                    TX_NUM_DESCRIPTORS as nat,
                    |i: int|
                        if ring_offset(i, tail0) < m + 1 {
                            p.descriptor(ring_offset(i, tail0))
                        } else {
                            old_descs[i]
                        },
                ));
            }
            m = m + 1;
            slot = if slot + 1 == TX_NUM_DESCRIPTORS { 0 } else { slot + 1 };
        }
        self.tail = slot;
        proof {
            assert(self.descriptors@ =~= post_descriptors(old_descs, tail0, *p));
        }
        true
    }
}


/// Low 32 bits of a 64-bit address.
pub open spec fn low_half(a: u64) -> int {
    (a % 0x1_0000_0000) as int
}

/// High 32 bits of a 64-bit address.
pub open spec fn high_half(a: u64) -> int {
    (a / 0x1_0000_0000) as int
}

/// Splits a 64-bit address into its low and high 32-bit halves.
pub fn split_address(a: u64) -> (r: (u32, u32))
    ensures
        r.0 == low_half(a),
        r.1 == high_half(a),
{
    let low = (a & 0xFFFF_FFFF) as u32;
    let high = (a >> 32) as u32;
    assert(low == a % 0x1_0000_0000 && high == a / 0x1_0000_0000) by (bit_vector)
        requires
            low == (a & 0xFFFF_FFFFu64) as u32,
            high == (a >> 32u64) as u32,
    ;
    (low, high)
}

/// Transmit control value for operation: `tctl` with short-packet padding,
/// the collision threshold and the full-duplex collision distance set.
pub open spec fn tx_settings(tctl: u32) -> u32 {
    tctl | TCTL_PSP | TCTL_CT | TCTL_COLD_FD
}

/// A transmit ring of zeroed descriptors whose DMA copy lives at
/// `ring_address`, and the register writes that configure the transmit unit
/// for it, given the current TCTL value: TCTL, base address low and high,
/// length in bytes, head 0 and tail at the last slot. The transmit unit is
/// not enabled here.
pub fn set_up_tx_desc_ring(tctl: u32, ring_address: u64) -> (r: (TxRing, Vec<RegisterWrite>))
    ensures
        r.0.wf(),
        forall|i: int| 0 <= i < TX_NUM_DESCRIPTORS ==> r.0.spec_descriptors()[i] == E1000TxDescriptor::zeroed(),
        r.0.spec_tail() == TX_NUM_DESCRIPTORS - 1,
        r.1@ == seq![
            RegisterWrite { register: Register::Tctl, value: tx_settings(tctl) },
            RegisterWrite { register: Register::Tdbal, value: low_half(ring_address) as u32 },
            RegisterWrite { register: Register::Tdbah, value: high_half(ring_address) as u32 },
            RegisterWrite { register: Register::Tdlen, value: (TX_NUM_DESCRIPTORS * DESCRIPTOR_BYTES) as u32 },
            RegisterWrite { register: Register::Tdh, value: 0 },
            RegisterWrite { register: Register::Tdt, value: (TX_NUM_DESCRIPTORS - 1) as u32 },
        ],
{
    let mut descriptors: Vec<E1000TxDescriptor> = Vec::new();
    let mut i: usize = 0;
    while i < TX_NUM_DESCRIPTORS
        invariant
            i <= TX_NUM_DESCRIPTORS,
            descriptors@.len() == i,
            forall|j: int| 0 <= j < i ==> descriptors@[j] == E1000TxDescriptor::zeroed(),
        decreases TX_NUM_DESCRIPTORS - i,
    {
        descriptors.push(E1000TxDescriptor::default());
        i = i + 1;
    }
    let (low, high) = split_address(ring_address);
    let mut writes: Vec<RegisterWrite> = Vec::new();
    writes.push(RegisterWrite { register: Register::Tctl, value: tctl | TCTL_PSP | TCTL_CT | TCTL_COLD_FD });
    writes.push(RegisterWrite { register: Register::Tdbal, value: low });
    writes.push(RegisterWrite { register: Register::Tdbah, value: high });
    writes.push(RegisterWrite { register: Register::Tdlen, value: (TX_NUM_DESCRIPTORS * DESCRIPTOR_BYTES) as u32 });
    writes.push(RegisterWrite { register: Register::Tdh, value: 0 });
    writes.push(RegisterWrite { register: Register::Tdt, value: (TX_NUM_DESCRIPTORS - 1) as u32 });
    assert(writes@ =~= seq![
        RegisterWrite { register: Register::Tctl, value: tx_settings(tctl) },
        RegisterWrite { register: Register::Tdbal, value: low_half(ring_address) as u32 },
        RegisterWrite { register: Register::Tdbah, value: high_half(ring_address) as u32 },
        RegisterWrite { register: Register::Tdlen, value: (TX_NUM_DESCRIPTORS * DESCRIPTOR_BYTES) as u32 },
        RegisterWrite { register: Register::Tdh, value: 0 },
        RegisterWrite { register: Register::Tdt, value: (TX_NUM_DESCRIPTORS - 1) as u32 },
    ]);
    (TxRing { descriptors, tail: TX_NUM_DESCRIPTORS - 1 }, writes)
}

/// The TCTL write that enables the transmit unit, given the current value.
pub fn enable_transmit(tctl: u32) -> (r: RegisterWrite)
    ensures
        r == (RegisterWrite { register: Register::Tctl, value: tctl | TCTL_EN }),
{
    RegisterWrite { register: Register::Tctl, value: tctl | TCTL_EN }
}

/// Posts the packets `packets[next..]` in order, as long as the ring has
/// room for the next one while the device reports `head`, and returns the
/// index of the first packet left unposted (`packets.len()` when all are).
/// The caller reads the head again and comes back with that index until
/// every packet is on the ring.
pub fn tx_conncect_buffer_to_descriptors(
    tx_ring: &mut TxRing,
    packets: &Vec<TxPacket>,
    next: usize,
    head: usize,
) -> (done: usize)
    requires
        old(tx_ring).wf(),
        next <= packets@.len(),
        head < TX_NUM_DESCRIPTORS,
        forall|k: int| 0 <= k < packets@.len() ==> #[trigger] packets@[k].wf(),
    ensures
        final(tx_ring).wf(),
        next <= done <= packets@.len(),
        (final(tx_ring).spec_descriptors(), final(tx_ring).spec_tail()) == post_all(
            old(tx_ring).spec_descriptors(),
            old(tx_ring).spec_tail(),
            packets@.subrange(next as int, done as int),
        ),
        final(tx_ring).spec_tail() == (old(tx_ring).spec_tail() + total_descriptors(
            packets@.subrange(next as int, done as int),
        )) % TX_NUM_DESCRIPTORS as int,
        done < packets@.len() ==> !has_room(final(tx_ring).spec_tail(), head as int, packets@[done as int]),
{
    let ghost descs0 = tx_ring.spec_descriptors();
    let ghost tail0 = tx_ring.spec_tail();
    let mut k = next;
    while k < packets.len()
        invariant
            tx_ring.wf(),
            next <= k <= packets@.len(),
            head < TX_NUM_DESCRIPTORS,
            0 <= tail0 < TX_NUM_DESCRIPTORS,
            descs0 == old(tx_ring).spec_descriptors(),
            tail0 == old(tx_ring).spec_tail(),
            forall|j: int| 0 <= j < packets@.len() ==> #[trigger] packets@[j].wf(),
            (tx_ring.spec_descriptors(), tx_ring.spec_tail()) == post_all(
                descs0,
                tail0,
                packets@.subrange(next as int, k as int),
            ),
            tx_ring.spec_tail() == (tail0 + total_descriptors(packets@.subrange(next as int, k as int)))
                % TX_NUM_DESCRIPTORS as int,
        decreases packets@.len() - k,
    {
        let posted = tx_ring.post_packet(&packets[k], head);
        if !posted {
            return k;
        }
        proof {
            let ps = packets@.subrange(next as int, k as int + 1);
            assert(ps.drop_last() =~= packets@.subrange(next as int, k as int));
            assert(ps.last() == packets@[k as int]);
            let t = total_descriptors(packets@.subrange(next as int, k as int));
            let c = packets@[k as int].descriptor_count();
            assert(((tail0 + t) % 64 + c) % 64 == (tail0 + t + c) % 64) by {
                vstd::arithmetic::div_mod::lemma_add_mod_noop(tail0 + t, c, 64);
                vstd::arithmetic::div_mod::lemma_mod_twice(tail0 + t, 64);
            }
        }
        k = k + 1;
    }
    k
}
} // verus!
