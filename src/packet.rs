use vstd::prelude::*;

verus! {

/// Length of an Ethernet header.
pub const ETHERNET_HEADER_SIZE: usize = 14;
/// Length of an IPv6 header.
pub const IPV6_HEADER_SIZE: usize = 40;
/// Length of a UDP header.
pub const UDP_HEADER_SIZE: usize = 8;
/// Largest frame payload handed to the wire in one packet.
pub const MTU: usize = 1500;

/// The headers at the front of an outbound buffer: always an Ethernet header,
/// then the IP header and the transport header that the tag names.
#[derive(Clone, Copy, Debug, PartialEq, Eq, Structural)]
pub enum NetworkProtocol {
    Ethernet,
    Ipv4,
    Ipv6,
    TcpIpv4,
    UdpIpv4,
    TcpIpv6,
    UdpIpv6,
}

/// Length in bytes of an IPv4 header whose first byte is `b`: the IHL
/// nibble (low four bits) counts 32-bit words.
pub open spec fn ipv4_header_len(b: u8) -> int {
    (b % 16) as int * 4
}

/// Length in bytes of a TCP header whose thirteenth byte is `b`: the data
/// offset nibble (high four bits) counts 32-bit words.
pub open spec fn tcp_header_len(b: u8) -> int {
    (b / 16) as int * 4
}

/// Whether `data` holds every byte that the header length of `protocol`
/// is read from.
pub open spec fn header_fields_present(protocol: NetworkProtocol, data: Seq<u8>) -> bool {
    match protocol {
        NetworkProtocol::Ethernet | NetworkProtocol::Ipv6 | NetworkProtocol::UdpIpv6 => true,
        NetworkProtocol::Ipv4 => data.len() > 0,
        NetworkProtocol::TcpIpv4 => data.len() > 14 && data.len() > 14 + ipv4_header_len(data[14])
            + 12,
        NetworkProtocol::UdpIpv4 => data.len() > 14,
        NetworkProtocol::TcpIpv6 => data.len() > 66,
    }
}

/// Total length of the headers at the front of `data` for `protocol`.
pub open spec fn header_size(protocol: NetworkProtocol, data: Seq<u8>) -> int {
    match protocol {
        NetworkProtocol::Ethernet => 14int,
        NetworkProtocol::Ipv4 => 14 + ipv4_header_len(data[0]),
        NetworkProtocol::Ipv6 => 54int,
        NetworkProtocol::TcpIpv4 => 14 + ipv4_header_len(data[14]) + tcp_header_len(
            data[14 + ipv4_header_len(data[14]) + 12],
        ),
        NetworkProtocol::UdpIpv4 => 14 + ipv4_header_len(data[14]) + 8,
        NetworkProtocol::TcpIpv6 => 54 + tcp_header_len(data[66int]),
        NetworkProtocol::UdpIpv6 => 62int,
    }
}

/// An outbound buffer: the bytes to send, headers first, and the protocol
/// tag that says which headers they start with.
pub struct TxBuffer {
    data: Vec<u8>,
    protocol: NetworkProtocol,
}

impl TxBuffer {
    pub closed spec fn spec_data(&self) -> Seq<u8> {
        self.data@
    }

    pub closed spec fn spec_protocol(&self) -> NetworkProtocol {
        self.protocol
    }

    pub fn new(data: Vec<u8>, protocol: NetworkProtocol) -> (r: Self)
        ensures
            r.spec_data() == data@,
            r.spec_protocol() == protocol,
    {
        TxBuffer { data, protocol }
    }

    /// Length of the buffer, truncated to 16 bits.
    pub fn size(&self) -> (r: u16)
        ensures
            r == self.spec_data().len() % 0x1_0000,
    {
        (self.data.len() % 0x1_0000) as u16
    }

    pub fn protocol(&self) -> (r: NetworkProtocol)
        ensures
            r == self.spec_protocol(),
    {
        self.protocol
    }

    pub fn data(&self) -> (r: &Vec<u8>)
        ensures
            r@ == self.spec_data(),
    {
        &self.data
    }
}

/// The protocol that a numeric tag of the system-call interface names:
/// only Ethernet (tag 0) is offered there; any other tag is refused.
pub fn protocol_from_tag(tag: usize) -> (r: Option<NetworkProtocol>)
    ensures
        tag == 0 ==> r == Some(NetworkProtocol::Ethernet),
        tag != 0 ==> r is None,
{
    if tag == 0 {
        Some(NetworkProtocol::Ethernet)
    } else {
        None
    }
}

/// Total length of the headers at the front of `tx_buffer`, read from the
/// header fields that its protocol tag implies.
pub fn get_header_size(tx_buffer: &TxBuffer) -> (r: usize)
    requires
        header_fields_present(tx_buffer.spec_protocol(), tx_buffer.spec_data()),
    ensures
        r == header_size(tx_buffer.spec_protocol(), tx_buffer.spec_data()),
{
    let data = tx_buffer.data();
    match tx_buffer.protocol() {
        NetworkProtocol::Ethernet => ETHERNET_HEADER_SIZE,
        NetworkProtocol::Ipv4 => {
            let ihl = data[0] % 16;
            ETHERNET_HEADER_SIZE + ihl as usize * 4
        },
        NetworkProtocol::Ipv6 => ETHERNET_HEADER_SIZE + IPV6_HEADER_SIZE,
        NetworkProtocol::TcpIpv4 => {
            let ip_header_size = (data[ETHERNET_HEADER_SIZE] % 16) as usize * 4;
            let data_offset = data[ETHERNET_HEADER_SIZE + ip_header_size + 12] / 16;
            ETHERNET_HEADER_SIZE + ip_header_size + data_offset as usize * 4
        },
        NetworkProtocol::UdpIpv4 => {
            let ip_header_size = (data[ETHERNET_HEADER_SIZE] % 16) as usize * 4;
            ETHERNET_HEADER_SIZE + ip_header_size + UDP_HEADER_SIZE
        },
        NetworkProtocol::TcpIpv6 => {
            let data_offset = data[ETHERNET_HEADER_SIZE + IPV6_HEADER_SIZE + 12] / 16;
            ETHERNET_HEADER_SIZE + IPV6_HEADER_SIZE + data_offset as usize * 4
        },
        NetworkProtocol::UdpIpv6 => ETHERNET_HEADER_SIZE + IPV6_HEADER_SIZE + UDP_HEADER_SIZE,
    }
}

/// Number of MTU-sized chunks that `len` bytes are cut into.
pub open spec fn packet_count(len: int) -> int {
    (len + MTU - 1) / MTU as int
}

/// Chunk `k` of `data`: bytes `k * MTU` up to `(k + 1) * MTU` or the end.
pub open spec fn chunk_of(data: Seq<u8>, k: int) -> Seq<u8> {
    let end = if (k + 1) * MTU < data.len() {
        (k + 1) * MTU
    } else {
        data.len() as int
    };
    data.subrange(k * MTU, end)
}

/// Packet `k` of `data` with `header_len` header bytes: the header followed
/// by chunk `k` of the whole buffer (header bytes included).
pub open spec fn packet_of(data: Seq<u8>, header_len: int, k: int) -> Seq<u8> {
    data.take(header_len) + chunk_of(data, k)
}

/// Appends `src[from..to]` to `dst`.
fn append_range(dst: &mut Vec<u8>, src: &Vec<u8>, from: usize, to: usize)
    requires
        from <= to <= src@.len(),
    ensures
        final(dst)@ == old(dst)@ + src@.subrange(from as int, to as int),
{
    let mut i = from;
    while i < to
        invariant
            from <= i <= to,
            to <= src@.len(),
            dst@ == old(dst)@ + src@.subrange(from as int, i as int),
        decreases to - i,
    {
        dst.push(src[i]);
        proof {
            assert(src@.subrange(from as int, i as int + 1) == src@.subrange(from as int, i as int).push(src@[i as int]));
        }
        i = i + 1;
    }
}

/// Cuts the buffer into MTU-sized chunks and puts the buffer's header in
/// front of each, so that a header stays alive as long as its payload.
pub fn create_packets(tx_buffer: &TxBuffer) -> (packets: Vec<Vec<u8>>)
    requires
        header_fields_present(tx_buffer.spec_protocol(), tx_buffer.spec_data()),
        header_size(tx_buffer.spec_protocol(), tx_buffer.spec_data()) <= tx_buffer.spec_data().len(),
    ensures
        packets@.len() == packet_count(tx_buffer.spec_data().len() as int),
        forall|k: int| 0 <= k < packets@.len() ==> #[trigger] packets@[k]@ == packet_of(
            tx_buffer.spec_data(),
            header_size(tx_buffer.spec_protocol(), tx_buffer.spec_data()),
            k,
        ),
{
    let header_size = get_header_size(tx_buffer);
    let data = tx_buffer.data();
    let len = data.len();
    let ghost h = header_size as int;
    let mut packets: Vec<Vec<u8>> = Vec::new();
    let mut start: usize = 0;
    let mut k: usize = 0;
    while start < len
        invariant
            data@ == tx_buffer.spec_data(),
            len == data@.len(),
            h == header_size,
            h <= len,
            start < len ==> start == k * MTU,
            start <= len,
            packets@.len() == k,
            start == len ==> k == packet_count(len as int),
            forall|j: int| 0 <= j < packets@.len() ==> #[trigger] packets@[j]@ == packet_of(data@, h, j),
        decreases len - start,
    {
        let end = if len - start > MTU { start + MTU } else { len };
        let mut packet: Vec<u8> = Vec::new();
        append_range(&mut packet, data, 0, header_size);
        append_range(&mut packet, data, start, end);
        proof {
            assert(packet@ == packet_of(data@, h, k as int));
            if end == len {
                assert(k * MTU < len <= (k + 1) * MTU);
                assert(k + 1 == packet_count(len as int));
            }
        }
        packets.push(packet);
        start = end;
        k = k + 1;
    }
    packets
}

/// Whether the header length of `protocol` can be read from `data` and
/// the headers fit in it.
pub fn headers_readable(tx_buffer: &TxBuffer) -> (r: bool)
    ensures
        r == (header_fields_present(tx_buffer.spec_protocol(), tx_buffer.spec_data())
            && header_size(tx_buffer.spec_protocol(), tx_buffer.spec_data()) <= tx_buffer.spec_data().len()),
{
    let data = tx_buffer.data();
    let len = data.len();
    let present = match tx_buffer.protocol() {
        NetworkProtocol::Ethernet | NetworkProtocol::Ipv6 | NetworkProtocol::UdpIpv6 => true,
        NetworkProtocol::Ipv4 => len > 0,
        NetworkProtocol::TcpIpv4 => len > ETHERNET_HEADER_SIZE && len > ETHERNET_HEADER_SIZE + (
        data[ETHERNET_HEADER_SIZE] % 16) as usize * 4 + 12,
        NetworkProtocol::UdpIpv4 => len > ETHERNET_HEADER_SIZE,
        NetworkProtocol::TcpIpv6 => len > ETHERNET_HEADER_SIZE + IPV6_HEADER_SIZE + 12,
    };
    present && get_header_size(tx_buffer) <= len
}

/// The packets of `tx_buffer` as `create_packets` cuts them, with the
/// header length; `None` when the header fields are missing or the headers
/// are longer than the buffer.
pub fn packets_for(tx_buffer: &TxBuffer) -> (r: Option<(usize, Vec<Vec<u8>>)>)
    ensures
        r is Some <==> header_fields_present(tx_buffer.spec_protocol(), tx_buffer.spec_data())
            && header_size(tx_buffer.spec_protocol(), tx_buffer.spec_data()) <= tx_buffer.spec_data().len(),
        r matches Some((h, packets)) ==> h == header_size(tx_buffer.spec_protocol(), tx_buffer.spec_data())
            && packets@.len() == packet_count(tx_buffer.spec_data().len() as int)
            && forall|k: int| 0 <= k < packets@.len() ==> #[trigger] packets@[k]@ == packet_of(
                tx_buffer.spec_data(),
                h as int,
                k,
            ),
{
    if headers_readable(tx_buffer) {
        Some((get_header_size(tx_buffer), create_packets(tx_buffer)))
    } else {
        None
    }
}

} // verus!
