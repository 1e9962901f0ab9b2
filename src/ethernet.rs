use vstd::prelude::*;

verus! {

/// EtherType of IPv4.
pub const ETHERTYPE_IPV4: u16 = 0x0800;

/// An Ethernet header: destination, source and EtherType.
#[derive(Clone, Copy, Debug)]
pub struct EthernetHeader {
    pub destination_mac: [u8; 6],
    pub source_mac: [u8; 6],
    pub ethertype: u16,
}

impl EthernetHeader {
    pub fn new(destination_mac: [u8; 6], source_mac: [u8; 6], ethertype: u16) -> (r: Self)
        ensures
            r.destination_mac == destination_mac,
            r.source_mac == source_mac,
            r.ethertype == ethertype,
    {
        EthernetHeader { destination_mac, source_mac, ethertype }
    }

    /// The header as it goes on the wire: destination, source, then the
    /// EtherType in network (big-endian) byte order.
    pub fn to_bytes(&self) -> (r: [u8; 14])
        ensures
            r@ == self.destination_mac@ + self.source_mac@ + seq![
                (self.ethertype / 0x100) as u8,
                (self.ethertype % 0x100) as u8,
            ],
    {
        let mut header = [0u8; 14];
        let mut i: usize = 0;
        while i < 6
            invariant
                i <= 6,
                forall|j: int| 0 <= j < i ==> header[j] == self.destination_mac[j],
                forall|j: int| 0 <= j < i ==> header[6 + j] == self.source_mac[j],
            decreases 6 - i,
        {
            header[i] = self.destination_mac[i];
            header[6 + i] = self.source_mac[i];
            i = i + 1;
        }
        header[12] = (self.ethertype >> 8) as u8;
        header[13] = (self.ethertype & 0xFF) as u8;
        let et = self.ethertype;
        assert((et >> 8) as u8 == (et / 0x100) as u8 && (et & 0xFF) as u8 == (et % 0x100) as u8)
            by (bit_vector);
        assert(header@ =~= self.destination_mac@ + self.source_mac@ + seq![
            (self.ethertype / 0x100) as u8,
            (self.ethertype % 0x100) as u8,
        ]);
        header
    }
}

/// A broadcast IPv4 frame header sent from `mac`.
pub fn build_ethernet_header(mac: [u8; 6]) -> (r: EthernetHeader)
    ensures
        r.destination_mac@ == seq![0xffu8, 0xff, 0xff, 0xff, 0xff, 0xff],
        r.source_mac == mac,
        r.ethertype == ETHERTYPE_IPV4,
{
    let r = EthernetHeader::new([0xff, 0xff, 0xff, 0xff, 0xff, 0xff], mac, ETHERTYPE_IPV4);
    assert(r.destination_mac@ =~= seq![0xffu8, 0xff, 0xff, 0xff, 0xff, 0xff]);
    r
}

} // verus!
