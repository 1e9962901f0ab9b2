use e1000::packet::{create_packets, get_header_size, NetworkProtocol, TxBuffer};

fn buffer_with(len: usize, set: &[(usize, u8)]) -> Vec<u8> {
    let mut data = vec![0u8; len];
    for &(i, b) in set {
        data[i] = b;
    }
    data
}

#[test]
fn header_size_ethernet() {
    let tx = TxBuffer::new(vec![0u8; 20], NetworkProtocol::Ethernet);
    assert_eq!(get_header_size(&tx), 14);
}

#[test]
fn header_size_ipv4_ihl_five() {
    let tx = TxBuffer::new(buffer_with(60, &[(0, 0x45)]), NetworkProtocol::Ipv4);
    assert_eq!(get_header_size(&tx), 34);
}

#[test]
fn header_size_ipv6_fixed() {
    let tx = TxBuffer::new(vec![0u8; 60], NetworkProtocol::Ipv6);
    assert_eq!(get_header_size(&tx), 54);
}

#[test]
fn header_size_tcp_over_ipv4() {
    // IHL 5 at byte 14, TCP data offset 5 at byte 14 + 20 + 12.
    let tx = TxBuffer::new(buffer_with(80, &[(14, 0x45), (46, 0x50)]), NetworkProtocol::TcpIpv4);
    assert_eq!(get_header_size(&tx), 54);
}

#[test]
fn header_size_tcp_over_ipv4_with_options() {
    // IHL 6 (24-byte IP header), data offset 8 (32-byte TCP header).
    let tx = TxBuffer::new(buffer_with(100, &[(14, 0x46), (50, 0x80)]), NetworkProtocol::TcpIpv4);
    assert_eq!(get_header_size(&tx), 14 + 24 + 32);
}

#[test]
fn header_size_udp_over_ipv4() {
    let tx = TxBuffer::new(buffer_with(60, &[(14, 0x45)]), NetworkProtocol::UdpIpv4);
    assert_eq!(get_header_size(&tx), 42);
}

#[test]
fn header_size_tcp_over_ipv6() {
    let tx = TxBuffer::new(buffer_with(120, &[(66, 0x50)]), NetworkProtocol::TcpIpv6);
    assert_eq!(get_header_size(&tx), 74);
}

#[test]
fn header_size_udp_over_ipv6() {
    let tx = TxBuffer::new(vec![0u8; 70], NetworkProtocol::UdpIpv6);
    assert_eq!(get_header_size(&tx), 62);
}

#[test]
fn tx_buffer_accessors() {
    let tx = TxBuffer::new(vec![1, 2, 3], NetworkProtocol::UdpIpv6);
    assert_eq!(tx.size(), 3);
    assert_eq!(tx.protocol(), NetworkProtocol::UdpIpv6);
    assert_eq!(tx.data(), &vec![1, 2, 3]);
    let big = TxBuffer::new(vec![0u8; 70_000], NetworkProtocol::Ethernet);
    assert_eq!(big.size(), (70_000 % 65_536) as u16);
}

#[test]
fn create_packets_small_payload() {
    let data: Vec<u8> = (0..100u32).map(|i| i as u8).collect();
    let tx = TxBuffer::new(data.clone(), NetworkProtocol::Ethernet);
    let packets = create_packets(&tx);
    assert_eq!(packets.len(), 1);
    let mut expected = data[..14].to_vec();
    expected.extend_from_slice(&data);
    assert_eq!(packets[0], expected);
}

#[test]
fn create_packets_three_thousand_bytes() {
    let data: Vec<u8> = (0..3000u32).map(|i| (i % 251) as u8).collect();
    let tx = TxBuffer::new(data.clone(), NetworkProtocol::Ethernet);
    let packets = create_packets(&tx);
    assert_eq!(packets.len(), 2);
    for (k, packet) in packets.iter().enumerate() {
        assert_eq!(packet.len(), 14 + 1500);
        assert_eq!(&packet[..14], &data[..14]);
        assert_eq!(&packet[14..], &data[k * 1500..(k + 1) * 1500]);
    }
}

#[test]
fn create_packets_uneven_tail() {
    let data: Vec<u8> = (0..1600u32).map(|i| (i % 7) as u8).collect();
    let tx = TxBuffer::new(data.clone(), NetworkProtocol::Ethernet);
    let packets = create_packets(&tx);
    assert_eq!(packets.len(), 2);
    assert_eq!(packets[1].len(), 14 + 100);
    assert_eq!(&packets[1][14..], &data[1500..]);
}

#[test]
fn create_packets_header_only() {
    let tx = TxBuffer::new(vec![9u8; 14], NetworkProtocol::Ethernet);
    let packets = create_packets(&tx);
    assert_eq!(packets, vec![vec![9u8; 28]]);
}
