use vstd::prelude::*;
use crate::mac::{ral_of, rah_of, mac_as_int, byte_of};
use crate::tx_ring::{TxPacket, MAX_DESCRIPTOR_SIZE, chunk_count};
use crate::packet::{chunk_of, packet_of};
use crate::rx_ring::{RxBufferPacket, RX_PACKET_CAPACITY};

verus! {

/// The bytes of `packet` that its first `n` descriptors point at, in
/// descriptor order, where `packet` is stored at the packet's address.
pub open spec fn gathered(packet: Seq<u8>, p: TxPacket, n: int) -> Seq<u8>
    decreases n,
{
    if n <= 0 {
        seq![]
    } else {
        let d = p.descriptor(n - 1);
        let start = d.buffer_addr - p.address;
        gathered(packet, p, n - 1) + packet.subrange(start, start + d.length)
    }
}

proof fn lemma_gathered_prefix(packet: Seq<u8>, p: TxPacket, n: int)
    requires
        p.wf(),
        packet.len() == p.header_len + p.payload_len,
        1 <= n <= p.descriptor_count(),
    ensures
        gathered(packet, p, n) == packet.take(
            p.header_len + if (n - 1) * MAX_DESCRIPTOR_SIZE < p.payload_len {
                (n - 1) * MAX_DESCRIPTOR_SIZE
            } else {
                p.payload_len as int
            },
        ),
    decreases n,
{
    if n == 1 {
        assert(gathered(packet, p, 0) == Seq::<u8>::empty());
        assert(gathered(packet, p, 1) =~= packet.take(p.header_len as int));
    } else {
        lemma_gathered_prefix(packet, p, n - 1);
        let j = n - 2;
        assert(j * MAX_DESCRIPTOR_SIZE < p.payload_len) by (nonlinear_arith)
            requires
                j < chunk_count(p.payload_len as int),
                chunk_count(p.payload_len as int) == (p.payload_len + MAX_DESCRIPTOR_SIZE - 1) / MAX_DESCRIPTOR_SIZE as int,
                p.payload_len >= 1,
        ;
        assert(gathered(packet, p, n) =~= packet.take(
            p.header_len + if (n - 1) * MAX_DESCRIPTOR_SIZE < p.payload_len {
                (n - 1) * MAX_DESCRIPTOR_SIZE
            } else {
                p.payload_len as int
            },
        ));
    }
}

/// Reassembly: the descriptors that the transmit ring posts for a packet,
/// read in order, point at exactly the packet's bytes, header first and
/// then the payload, each byte once.
pub proof fn lemma_descriptors_reassemble_packet(packet: Seq<u8>, p: TxPacket)
    requires
        p.wf(),
        packet.len() == p.header_len + p.payload_len,
    ensures
        gathered(packet, p, p.descriptor_count()) == packet,
{
    let n = p.descriptor_count();
    lemma_gathered_prefix(packet, p, n);
    assert((n - 1) * MAX_DESCRIPTOR_SIZE >= p.payload_len) by (nonlinear_arith)
        requires
            n - 1 == (p.payload_len + MAX_DESCRIPTOR_SIZE - 1) / MAX_DESCRIPTOR_SIZE as int,
    ;
    assert(packet.take(packet.len() as int) == packet);
}

/// Loopback round trip: packet `k` of `data` (as `create_packets` builds
/// it, with `h` header bytes) is read by the device through its descriptors
/// as the header followed by chunk `k`; once that frame sits at the start of
/// a receive buffer, the record that `take_descriptor` makes of it holds the
/// same bytes, provided the frame fits in a record.
pub proof fn lemma_loopback_round_trip(
    data: Seq<u8>,
    h: int,
    k: int,
    p: TxPacket,
    buffer: Seq<u8>,
    record: RxBufferPacket,
)
    requires
        0 <= h <= data.len(),
        0 <= k,
        k * 1500 < data.len(),
        p.wf(),
        p.header_len == h,
        p.payload_len == chunk_of(data, k).len(),
        packet_of(data, h, k).len() <= RX_PACKET_CAPACITY,
        buffer.take(packet_of(data, h, k).len() as int) == gathered(packet_of(data, h, k), p, p.descriptor_count()),
        record.length == packet_of(data, h, k).len(),
        record.bytes() == buffer.take(record.length as int),
    ensures
        gathered(packet_of(data, h, k), p, p.descriptor_count()) == data.take(h) + chunk_of(data, k),
        record.bytes() == data.take(h) + chunk_of(data, k),
{
    lemma_descriptors_reassemble_packet(packet_of(data, h, k), p);
}

/// Receive-address round trip: the RAL0 and RAH0 values written for a MAC
/// address read back as the same six bytes, with the address-valid bit set
/// and both values within 32 bits.
pub proof fn lemma_receive_address_round_trip(mac: [u8; 6])
    ensures
        0 <= ral_of(mac) < 0x1_0000_0000,
        0 <= rah_of(mac) < 0x1_0000_0000,
        ral_of(mac) % 0x100 == mac[0],
        (ral_of(mac) / 0x100) % 0x100 == mac[1],
        (ral_of(mac) / 0x1_0000) % 0x100 == mac[2],
        ral_of(mac) / 0x100_0000 == mac[3],
        rah_of(mac) % 0x100 == mac[4],
        (rah_of(mac) / 0x100) % 0x100 == mac[5],
        rah_of(mac) / 0x8000_0000 == 1,
{
    let (b0, b1, b2, b3, b4, b5) = (mac[0] as int, mac[1] as int, mac[2] as int, mac[3] as int, mac[4] as int, mac[5] as int);
    assert(0 <= b0 < 256 && 0 <= b1 < 256 && 0 <= b2 < 256 && 0 <= b3 < 256 && 0 <= b4 < 256 && 0 <= b5 < 256);
    let ral = b0 + b1 * 0x100 + b2 * 0x1_0000 + b3 * 0x100_0000;
    let rah = b4 + b5 * 0x100 + 0x8000_0000;
    vstd::arithmetic::div_mod::lemma_fundamental_div_mod_converse(ral, 0x100, b1 + b2 * 0x100 + b3 * 0x1_0000, b0);
    vstd::arithmetic::div_mod::lemma_fundamental_div_mod_converse(ral / 0x100, 0x100, b2 + b3 * 0x100, b1);
    vstd::arithmetic::div_mod::lemma_fundamental_div_mod_converse(ral, 0x1_0000, b2 + b3 * 0x100, b0 + b1 * 0x100);
    vstd::arithmetic::div_mod::lemma_fundamental_div_mod_converse(ral / 0x1_0000, 0x100, b3, b2);
    vstd::arithmetic::div_mod::lemma_fundamental_div_mod_converse(ral, 0x100_0000, b3, b0 + b1 * 0x100 + b2 * 0x1_0000);
    vstd::arithmetic::div_mod::lemma_fundamental_div_mod_converse(rah, 0x100, b5 + 0x80_0000, b4);
    vstd::arithmetic::div_mod::lemma_fundamental_div_mod_converse(rah / 0x100, 0x100, 0x8000, b5);
    vstd::arithmetic::div_mod::lemma_fundamental_div_mod_converse(rah, 0x8000_0000, 1, b4 + b5 * 0x100);
}

/// MAC packing round trip: byte `i` of the integer that
/// `sys_get_mac_address` returns is byte `i` of the address, which is what
/// `usize_to_mac` reads back.
pub proof fn lemma_mac_packing_round_trip(mac: [u8; 6])
    ensures
        forall|i: int| 0 <= i < 6 ==> byte_of(mac_as_int(mac), i as nat) == mac[i],
{
    let v = mac_as_int(mac);
    let (b0, b1, b2, b3, b4, b5) = (mac[0] as int, mac[1] as int, mac[2] as int, mac[3] as int, mac[4] as int, mac[5] as int);
    assert(0 <= b0 < 256 && 0 <= b1 < 256 && 0 <= b2 < 256 && 0 <= b3 < 256 && 0 <= b4 < 256 && 0 <= b5 < 256);
    reveal_with_fuel(byte_of, 7);
    let v1 = b1 + b2 * 0x100 + b3 * 0x1_0000 + b4 * 0x100_0000 + b5 * 0x1_0000_0000;
    let v2 = b2 + b3 * 0x100 + b4 * 0x1_0000 + b5 * 0x100_0000;
    let v3 = b3 + b4 * 0x100 + b5 * 0x1_0000;
    let v4 = b4 + b5 * 0x100;
    let v5 = b5;
    vstd::arithmetic::div_mod::lemma_fundamental_div_mod_converse(v, 0x100, v1, b0);
    vstd::arithmetic::div_mod::lemma_fundamental_div_mod_converse(v1, 0x100, v2, b1);
    vstd::arithmetic::div_mod::lemma_fundamental_div_mod_converse(v2, 0x100, v3, b2);
    vstd::arithmetic::div_mod::lemma_fundamental_div_mod_converse(v3, 0x100, v4, b3);
    vstd::arithmetic::div_mod::lemma_fundamental_div_mod_converse(v4, 0x100, v5, b4);
    vstd::arithmetic::div_mod::lemma_fundamental_div_mod_converse(v5, 0x100, 0, b5);
}

} // verus!
