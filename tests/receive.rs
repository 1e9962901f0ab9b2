use e1000::descriptor::E1000RxDescriptor;
use e1000::device::{bridge_queue, fetch_rx_data, receive_data, IntelE1000Device};
use e1000::interrupt::{enable_interrupts, interrupt_causes, link_up, E1000InterruptHandler, INTERRUPT_MASK};
use e1000::mac::usize_to_mac;
use e1000::packet::{create_packets, NetworkProtocol, TxBuffer};
use e1000::registers::{E1000Registers, Register, RegisterWrite};
use e1000::rx_ring::{
    enable_receive, fake_transmit_lbm, replenish_rx_desc_ring, retrieve_packets, rx_ring_pop,
    set_up_rx_desc_ring, RxBufferPacket, RxPop, RX_NUM_DESCRIPTORS,
};

fn handler_and_device() -> (E1000InterruptHandler, IntelE1000Device) {
    let (ring, _) = set_up_rx_desc_ring(0, 0x30_0000, true);
    let (rx, tx) = bridge_queue();
    let handler = E1000InterruptHandler::new(ring, tx);
    let device = IntelE1000Device {
        registers: E1000Registers::new(0xFEBC_0000),
        mac_address: usize_to_mac(0x5634_1200_5452),
        rx_buffer_consumer: rx,
    };
    (handler, device)
}

#[test]
fn rx_ring_setup_values() {
    let (ring, writes) = set_up_rx_desc_ring(0x000B_0B00 | 0x4, 0x2_0000_1000, true);
    assert_eq!(ring.tail(), RX_NUM_DESCRIPTORS - 1);
    assert!(ring.descriptors().iter().all(|d| *d == E1000RxDescriptor::default()));
    assert!(ring.buffer(5).iter().all(|b| *b == 0));
    assert_eq!(ring.buffer(5).len(), 2048);
    assert_eq!(
        writes,
        vec![
            RegisterWrite { register: Register::Rctl, value: 0x4 | 0x8000 | 0xC0 },
            RegisterWrite { register: Register::Rdbal, value: 0x1000 },
            RegisterWrite { register: Register::Rdbah, value: 0x2 },
            RegisterWrite { register: Register::Rdlen, value: 2048 },
            RegisterWrite { register: Register::Rdh, value: 0 },
            RegisterWrite { register: Register::Rdt, value: 127 },
        ]
    );
    let (_, plain) = set_up_rx_desc_ring(0, 0, false);
    assert_eq!(plain[0], RegisterWrite { register: Register::Rctl, value: 0x8000 });
    assert_eq!(enable_receive(0x8000), RegisterWrite { register: Register::Rctl, value: 0x8002 });
}

#[test]
fn buffer_addresses_are_recorded() {
    let (mut ring, _) = set_up_rx_desc_ring(0, 0, false);
    ring.set_buffer_address(3, 0xABCD_0000);
    assert_eq!(ring.descriptors()[3].buffer_addr, 0xABCD_0000);
    assert_eq!(ring.descriptors()[4].buffer_addr, 0);
}

#[test]
fn timer_interrupt_pops_one_packet() {
    let (mut handler, mut device) = handler_and_device();
    let tail = handler.rx_ring().tail();
    let frame: Vec<u8> = (0..200u32).map(|i| i as u8).collect();
    fake_transmit_lbm(handler.rx_ring_mut(), &frame, tail);
    let report = handler.trigger(0x80);
    assert!(!report.link_status_changed);
    assert_eq!(report.drain, None);
    assert_eq!(report.pop, Some(RxPop::Delivered));
    assert_eq!(report.rdt as usize, (tail + 1) % RX_NUM_DESCRIPTORS);
    let packet = receive_data(&mut device).expect("one packet");
    assert_eq!(packet.length, 200);
    assert_eq!(&packet.data[..200], &frame[..]);
    assert!(receive_data(&mut device).is_none());
    assert_eq!(handler.rx_ring().descriptors()[tail].status & 1, 0);
}

#[test]
fn timer_interrupt_with_nothing_done_is_idle() {
    let (mut handler, mut device) = handler_and_device();
    let report = handler.trigger(0x80);
    assert_eq!(report.pop, Some(RxPop::Idle));
    assert_eq!(report.rdt as usize, RX_NUM_DESCRIPTORS - 1);
    assert!(receive_data(&mut device).is_none());
}

#[test]
fn errored_descriptor_is_dropped_and_tail_advances() {
    let (mut handler, mut device) = handler_and_device();
    let tail = handler.rx_ring().tail();
    handler.rx_ring_mut().receive_frame(tail, &vec![7u8; 64], 0x01);
    let report = handler.trigger(0x80);
    assert_eq!(report.pop, Some(RxPop::Rejected));
    assert_eq!(report.rdt as usize, (tail + 1) % RX_NUM_DESCRIPTORS);
    assert!(receive_data(&mut device).is_none());
    assert_eq!(handler.rx_ring().descriptors()[tail].status, 0);
}

#[test]
fn full_size_frame_is_delivered() {
    let (mut ring, _) = set_up_rx_desc_ring(0, 0, false);
    let (rx, mut tx) = bridge_queue();
    let frame: Vec<u8> = (0..1514u32).map(|i| (i % 253) as u8).collect();
    ring.receive_frame(0, &frame, 0);
    let drained = retrieve_packets(&mut ring, &mut tx);
    assert_eq!((drained.processed, drained.rejected, drained.dropped), (1, 0, 0));
    let p = rx.try_dequeue().unwrap();
    assert_eq!(p.length, 1514);
    assert_eq!(&p.data[..1514], &frame[..]);
}

#[test]
fn full_bridge_queue_drops_newest_and_keeps_old_entries() {
    let (mut handler, mut device) = handler_and_device();
    // Fill the queue to capacity with recognisable packets.
    let mut filled = 0;
    loop {
        let tail = handler.rx_ring().tail();
        let head = (tail + 1) % RX_NUM_DESCRIPTORS;
        let frame = vec![(filled % 256) as u8; 10];
        fake_transmit_lbm(handler.rx_ring_mut(), &frame, head);
        let report = handler.trigger(0x10);
        let drain = report.drain.unwrap();
        assert_eq!(drain.processed, 1);
        if drain.dropped == 1 {
            assert_eq!(report.rdt as usize, head);
            break;
        }
        filled += 1;
        assert!(filled <= RX_NUM_DESCRIPTORS);
    }
    assert_eq!(filled, RX_NUM_DESCRIPTORS);
    for i in 0..filled {
        let p = receive_data(&mut device).unwrap();
        assert_eq!(p.length, 10);
        assert_eq!(p.data[0], (i % 256) as u8);
    }
    assert!(receive_data(&mut device).is_none());
}

#[test]
fn drain_processes_every_done_descriptor() {
    let (mut ring, _) = set_up_rx_desc_ring(0, 0, false);
    let (rx, mut tx) = bridge_queue();
    ring.receive_frame(0, &vec![1u8; 60], 0);
    ring.receive_frame(1, &vec![2u8; 61], 0);
    ring.receive_frame(2, &vec![3u8; 62], 0x4);
    let drained = retrieve_packets(&mut ring, &mut tx);
    assert_eq!((drained.processed, drained.rejected, drained.dropped), (3, 1, 0));
    assert_eq!(ring.tail(), (RX_NUM_DESCRIPTORS - 1 + 3) % RX_NUM_DESCRIPTORS);
    assert!(ring.descriptors().iter().all(|d| d.status & 1 == 0));
    assert_eq!(rx.try_dequeue().unwrap().length, 60);
    assert_eq!(rx.try_dequeue().unwrap().length, 61);
    assert!(rx.try_dequeue().is_err());
}

#[test]
fn pop_looks_at_the_tail_only() {
    let (mut ring, _) = set_up_rx_desc_ring(0, 0, false);
    let (_rx, mut tx) = bridge_queue();
    ring.receive_frame(0, &vec![1u8; 60], 0);
    assert_eq!(rx_ring_pop(&mut ring, &mut tx), RxPop::Idle);
    assert_eq!(ring.tail(), RX_NUM_DESCRIPTORS - 1);
}

#[test]
fn replenish_hands_back_done_descriptors() {
    let (mut ring, _) = set_up_rx_desc_ring(0, 0, false);
    ring.receive_frame(10, &vec![1u8; 60], 0);
    ring.receive_frame(20, &vec![1u8; 60], 1);
    assert_eq!(replenish_rx_desc_ring(&mut ring), 2);
    assert_eq!(ring.tail(), 1);
    assert!(ring.descriptors().iter().all(|d| d.status == 0));
    assert_eq!(replenish_rx_desc_ring(&mut ring), 0);
}

#[test]
fn loopback_round_trip_small_and_large() {
    for len in [100usize, 1600, 3000] {
        let (mut handler, mut device) = handler_and_device();
        let data: Vec<u8> = (0..len as u32).map(|i| (i * 7 % 256) as u8).collect();
        let tx = TxBuffer::new(data.clone(), NetworkProtocol::Ethernet);
        let packets = create_packets(&tx);
        let mut head = (handler.rx_ring().tail() + 1) % RX_NUM_DESCRIPTORS;
        for frame in &packets {
            head = fake_transmit_lbm(handler.rx_ring_mut(), frame, head);
        }
        let report = handler.trigger(0x40);
        let drain = report.drain.unwrap();
        assert_eq!(drain.processed, packets.len());
        let mut received = Vec::new();
        while fetch_rx_data(&mut received, &mut device) {}
        // Every frame comes back byte for byte, in order.
        let mut expected = Vec::new();
        for frame in &packets {
            expected.extend_from_slice(frame);
        }
        assert_eq!(drain.rejected, 0);
        assert_eq!(received, expected);
        let mut tail_packet = data[..14].to_vec();
        tail_packet.extend_from_slice(&data[(packets.len() - 1) * 1500..]);
        assert!(received.ends_with(&tail_packet));
    }
}

#[test]
fn interrupt_cause_decoding() {
    assert_eq!(interrupt_causes(0x04), (true, false, false));
    assert_eq!(interrupt_causes(0x10), (false, true, false));
    assert_eq!(interrupt_causes(0x40), (false, true, false));
    assert_eq!(interrupt_causes(0x80), (false, false, true));
    assert_eq!(interrupt_causes(0x03), (false, false, false));
    assert!(link_up(0x2));
    assert!(!link_up(0x1));
    assert_eq!(enable_interrupts(), RegisterWrite { register: Register::Ims, value: INTERRUPT_MASK });
    assert_eq!(INTERRUPT_MASK, 1 | 2 | 4 | 16 | 64 | 128 | 512 | 4096 | 8192 | 16384 | 32768 | 65536);
}

#[test]
fn link_change_with_drain_and_timer() {
    let (mut handler, mut device) = handler_and_device();
    let head = (handler.rx_ring().tail() + 1) % RX_NUM_DESCRIPTORS;
    fake_transmit_lbm(handler.rx_ring_mut(), &vec![5u8; 30], head);
    let report = handler.trigger(0x04 | 0x10 | 0x80);
    assert!(report.link_status_changed);
    assert_eq!(report.drain.unwrap().processed, 1);
    assert_eq!(report.pop, Some(RxPop::Idle));
    assert_eq!(report.rdt as usize, head);
    let mut received = Vec::new();
    assert!(fetch_rx_data(&mut received, &mut device));
    assert_eq!(received, vec![5u8; 30]);
    assert!(!fetch_rx_data(&mut received, &mut device));
}

#[test]
fn bridge_queue_capacity_is_the_ring_length() {
    let (rx, mut tx) = bridge_queue();
    for i in 0..RX_NUM_DESCRIPTORS {
        let p = RxBufferPacket { length: i, data: [i as u8; 2048] };
        assert!(e1000::rx_ring::enqueue_packet(&mut tx, p));
    }
    assert!(!e1000::rx_ring::enqueue_packet(&mut tx, RxBufferPacket { length: 1, data: [0xEE; 2048] }));
    for i in 0..RX_NUM_DESCRIPTORS {
        let p = rx.try_dequeue().unwrap();
        assert_eq!(p.length, i);
        assert_eq!(p.data[2047], i as u8);
    }
    assert!(rx.try_dequeue().is_err());
}

#[test]
fn link_change_alone_leaves_ring_and_queue() {
    let (mut handler, mut device) = handler_and_device();
    let tail = handler.rx_ring().tail();
    fake_transmit_lbm(handler.rx_ring_mut(), &vec![9u8; 40], tail);
    let report = handler.trigger(0x04);
    assert!(report.link_status_changed);
    assert_eq!(report.drain, None);
    assert_eq!(report.pop, None);
    assert_eq!(report.rdt as usize, tail);
    assert_eq!(handler.rx_ring().descriptors()[tail].status & 1, 1);
    assert!(receive_data(&mut device).is_none());
}
