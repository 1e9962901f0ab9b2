use e1000::descriptor::E1000TxDescriptor;
use e1000::packet::{create_packets, NetworkProtocol, TxBuffer};
use e1000::registers::{Register, RegisterWrite};
use e1000::tx_ring::{
    enable_transmit, set_up_tx_desc_ring, split_address, tx_conncect_buffer_to_descriptors, TxPacket,
    TXD_CMD_EOP, TXD_CMD_RS, TX_NUM_DESCRIPTORS,
};

fn packets_for(data: Vec<u8>, base: u64) -> Vec<TxPacket> {
    let tx = TxBuffer::new(data, NetworkProtocol::Ethernet);
    let packets = create_packets(&tx);
    packets
        .iter()
        .enumerate()
        .map(|(k, p)| TxPacket::new(base + 0x1_0000 * k as u64, 14, p.len() - 14).unwrap())
        .collect()
}

#[test]
fn tx_ring_setup_values() {
    let (ring, writes) = set_up_tx_desc_ring(0x0000_0100, 0x1_2345_6000);
    assert_eq!(ring.tail(), TX_NUM_DESCRIPTORS - 1);
    assert!(ring.descriptors().iter().all(|d| *d == E1000TxDescriptor::default()));
    assert_eq!(
        writes,
        vec![
            RegisterWrite { register: Register::Tctl, value: 0x0000_0100 | 0x08 | 0xF0 | 0x0004_0000 },
            RegisterWrite { register: Register::Tdbal, value: 0x2345_6000 },
            RegisterWrite { register: Register::Tdbah, value: 0x1 },
            RegisterWrite { register: Register::Tdlen, value: 1024 },
            RegisterWrite { register: Register::Tdh, value: 0 },
            RegisterWrite { register: Register::Tdt, value: 63 },
        ]
    );
    assert_eq!(enable_transmit(0x10), RegisterWrite { register: Register::Tctl, value: 0x12 });
    assert_eq!(split_address(0xAABB_CCDD_1122_3344), (0x1122_3344, 0xAABB_CCDD));
}

#[test]
fn transmit_three_thousand_bytes_posts_four_descriptors() {
    let (mut ring, _) = set_up_tx_desc_ring(0, 0x10_0000);
    let start = ring.tail();
    let packets = packets_for(vec![0x55u8; 3000], 0x20_0000);
    assert_eq!(packets.len(), 2);
    // The device has consumed everything up to the tail: the ring is empty.
    let done = tx_conncect_buffer_to_descriptors(&mut ring, &packets, 0, start);
    assert_eq!(done, 2);
    assert_eq!(ring.tail(), (start + 4) % TX_NUM_DESCRIPTORS);
    let d = ring.descriptors();
    let s = |m: usize| (start + m) % TX_NUM_DESCRIPTORS;
    for (k, p) in packets.iter().enumerate() {
        let header = d[s(2 * k)];
        let payload = d[s(2 * k + 1)];
        assert_eq!(header.buffer_addr, p.address);
        assert_eq!(header.length, 14);
        assert_eq!(header.cmd, TXD_CMD_RS);
        assert_eq!(header.status, 0);
        assert_eq!(payload.buffer_addr, p.address + 14);
        assert_eq!(payload.length, 1500);
        assert_eq!(payload.cmd, TXD_CMD_RS | TXD_CMD_EOP);
        assert_eq!(payload.status, 0);
    }
}

#[test]
fn transmit_waits_when_ring_is_full() {
    let (mut ring, _) = set_up_tx_desc_ring(0, 0x10_0000);
    let packets = packets_for(vec![1u8; 100], 0x20_0000);
    // Freshly set up, head 0 and tail at the last slot: no free slot.
    let done = tx_conncect_buffer_to_descriptors(&mut ring, &packets, 0, 0);
    assert_eq!(done, 0);
    assert_eq!(ring.tail(), TX_NUM_DESCRIPTORS - 1);
    assert!(ring.descriptors().iter().all(|d| *d == E1000TxDescriptor::default()));
    // Once the device head has caught up, the packet goes out.
    let done = tx_conncect_buffer_to_descriptors(&mut ring, &packets, 0, TX_NUM_DESCRIPTORS - 1);
    assert_eq!(done, 1);
    assert_eq!(ring.tail(), 1);
}

#[test]
fn transmit_keeps_the_safety_margin() {
    let (mut ring, _) = set_up_tx_desc_ring(0, 0x10_0000);
    let packets = packets_for(vec![1u8; 100], 0x20_0000);
    let tail = ring.tail();
    // Two free slots: the packet needs two plus one of margin.
    let head = (tail + 3) % TX_NUM_DESCRIPTORS;
    assert_eq!(tx_conncect_buffer_to_descriptors(&mut ring, &packets, 0, head), 0);
    let head = (tail + 4) % TX_NUM_DESCRIPTORS;
    assert_eq!(tx_conncect_buffer_to_descriptors(&mut ring, &packets, 0, head), 1);
    assert_eq!(ring.tail(), (tail + 2) % TX_NUM_DESCRIPTORS);
}

#[test]
fn large_payload_is_split_into_chunks() {
    let (mut ring, _) = set_up_tx_desc_ring(0, 0x10_0000);
    let p = TxPacket::new(0x40_0000, 14, 9000).unwrap();
    let start = ring.tail();
    assert!(ring.post_packet(&p, start));
    let d = ring.descriptors();
    let s = |m: usize| (start + m) % TX_NUM_DESCRIPTORS;
    assert_eq!(ring.tail(), (start + 4) % TX_NUM_DESCRIPTORS);
    assert_eq!((d[s(1)].length, d[s(2)].length, d[s(3)].length), (4096, 4096, 808));
    assert_eq!(d[s(2)].buffer_addr, 0x40_0000 + 14 + 4096);
    assert_eq!((d[s(1)].cmd, d[s(2)].cmd, d[s(3)].cmd), (TXD_CMD_RS, TXD_CMD_RS, TXD_CMD_RS | TXD_CMD_EOP));
}

#[test]
fn tx_packet_rejects_bad_shapes() {
    assert!(TxPacket::new(0x1000, 14, 0).is_none());
    assert!(TxPacket::new(u64::MAX - 10, 14, 100).is_none());
    assert!(TxPacket::new(0, 70_000, 100).is_none());
    assert!(TxPacket::new(0, 14, 4096 * 62).is_none());
    assert!(TxPacket::new(0, 14, 4096 * 61).is_some());
    assert!(TxPacket::new(0, 14, 1500).is_some());
}
