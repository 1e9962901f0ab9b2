use vstd::prelude::*;

verus! {

/// Transmit descriptor as the device reads it: where the bytes are, how many,
/// and the command and status bits.
#[derive(Clone, Copy, Debug, PartialEq, Eq, Structural)]
pub struct E1000TxDescriptor {
    pub buffer_addr: u64,
    pub length: u16,
    pub cso: u8,
    pub cmd: u8,
    pub status: u8,
    pub css: u8,
    pub special: u16,
}

/// Receive descriptor: the buffer that the device writes a frame into, and
/// what the device reports about that frame.
#[derive(Clone, Copy, Debug, PartialEq, Eq, Structural)]
pub struct E1000RxDescriptor {
    pub buffer_addr: u64,
    pub length: u16,
    pub csum: u16,
    pub status: u8,
    pub errors: u8,
    pub special: u16,
}

/// Descriptor status: the device is done with the descriptor.
pub const STATUS_DD: u8 = 0x01;

/// Whether a status byte has the descriptor-done bit set.
pub open spec fn is_done(status: u8) -> bool {
    status % 2 == 1
}

/// Whether the descriptor-done bit of `status` is set.
pub fn status_done(status: u8) -> (r: bool)
    ensures
        r == is_done(status),
{
    let r = status & STATUS_DD != 0;
    assert(r == (status % 2 == 1)) by (bit_vector)
        requires
            r == (status & 1u8 != 0),
    ;
    r
}

impl E1000TxDescriptor {
    pub open spec fn zeroed() -> Self {
        E1000TxDescriptor { buffer_addr: 0, length: 0, cso: 0, cmd: 0, status: 0, css: 0, special: 0 }
    }
}

impl E1000RxDescriptor {
    pub open spec fn zeroed() -> Self {
        E1000RxDescriptor { buffer_addr: 0, length: 0, csum: 0, status: 0, errors: 0, special: 0 }
    }
}

impl Default for E1000TxDescriptor {
    fn default() -> (r: Self)
        ensures
            r == Self::zeroed(),
    {
        E1000TxDescriptor { buffer_addr: 0, length: 0, cso: 0, cmd: 0, status: 0, css: 0, special: 0 }
    }
}

impl Default for E1000RxDescriptor {
    fn default() -> (r: Self)
        ensures
            r == Self::zeroed(),
    {
        E1000RxDescriptor { buffer_addr: 0, length: 0, csum: 0, status: 0, errors: 0, special: 0 }
    }
}

} // verus!
