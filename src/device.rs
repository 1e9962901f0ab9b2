use vstd::prelude::*;
use nolock::queues::mpmc::bounded::scq::{Receiver, Sender};
use crate::registers::E1000Registers;
use crate::bridge::{accepted, delivered, new_queue, take};
use crate::rx_ring::{RxBufferPacket, RX_NUM_DESCRIPTORS, RX_PACKET_CAPACITY};

verus! {

/// PCI vendor id of the controller.
pub const E1000_VENDOR_ID: u16 = 0x8086;
/// PCI device id of the controller.
pub const E1000_DEVICE_ID: u16 = 0x100e;

/// Most polls of a device bit before the device counts as unresponsive.
pub const POLL_LIMIT: u32 = 1_000_000;

/// What a bounded busy-wait does next.
#[derive(Clone, Copy, Debug, PartialEq, Eq, Structural)]
pub enum PollStep {
    /// The awaited condition holds.
    Finished,
    /// Poll again.
    Continue,
    /// The limit is reached without the condition: give up.
    Unresponsive,
}

/// Decides a bounded busy-wait after `attempts` polls, the last of which
/// found the awaited condition to be `complete`.
pub fn poll_decision(attempts: u32, complete: bool) -> (r: PollStep)
    ensures
        complete ==> r == PollStep::Finished,
        !complete && attempts < POLL_LIMIT ==> r == PollStep::Continue,
        !complete && attempts >= POLL_LIMIT ==> r == PollStep::Unresponsive,
{
    if complete {
        PollStep::Finished
    } else if attempts < POLL_LIMIT {
        PollStep::Continue
    } else {
        PollStep::Unresponsive
    }
}

/// Why the controller cannot be brought up.
#[derive(Clone, Copy, Debug, PartialEq, Eq, Structural)]
pub enum DeviceError {
    /// No PCI function has the controller's vendor and device id.
    NotFound,
    /// More than one PCI function has them.
    MultipleFound,
    /// BAR 0 does not describe a memory-mapped register window.
    NoMemoryBar,
    /// The register window is not page aligned or lies too high to hold
    /// every register.
    BadWindow,
    /// The device did not finish a handshake within `POLL_LIMIT` polls.
    Unresponsive,
    /// No DMA-capable memory was left for a descriptor ring or a receive buffer.
    OutOfDmaMemory,
}

/// Checks the number of PCI functions that match the controller's ids:
/// exactly one is expected.
pub fn check_device_count(matches: usize) -> (r: Result<(), DeviceError>)
    ensures
        matches == 1 <==> r is Ok,
        matches == 0 <==> r == Err::<(), DeviceError>(DeviceError::NotFound),
        matches > 1 <==> r == Err::<(), DeviceError>(DeviceError::MultipleFound),
{
    if matches == 0 {
        Err(DeviceError::NotFound)
    } else if matches > 1 {
        Err(DeviceError::MultipleFound)
    } else {
        Ok(())
    }
}

/// The driver's normal-context side: the register window, the MAC address
/// it installed, and the consuming end of the bridge queue.
pub struct IntelE1000Device {
    pub registers: E1000Registers,
    pub mac_address: [u8; 6],
    pub rx_buffer_consumer: Receiver<RxBufferPacket>,
}

/// Creates the bridge queue between the interrupt handler and normal
/// context, with room for one receive ring's worth of packets.
pub fn bridge_queue() -> (r: (Receiver<RxBufferPacket>, Sender<RxBufferPacket>))
    ensures
        delivered(r.0) == Seq::<Seq<u8>>::empty(),
        accepted(r.1) == Seq::<Seq<u8>>::empty(),
{
    new_queue(RX_NUM_DESCRIPTORS)
}

/// Takes one received packet off the bridge queue without blocking, or
/// `None` when there is none.
pub fn receive_data(device: &mut IntelE1000Device) -> (r: Option<RxBufferPacket>)
    ensures
        r matches Some(p) ==> delivered(final(device).rx_buffer_consumer) == delivered(
            old(device).rx_buffer_consumer,
        ).push(p.bytes()),
        r is None ==> delivered(final(device).rx_buffer_consumer) == delivered(old(device).rx_buffer_consumer),
        final(device).mac_address == old(device).mac_address,
{
    take(&mut device.rx_buffer_consumer)
}

/// Appends the bytes of `packet` to `rx_data`.
pub fn append_packet_data(rx_data: &mut Vec<u8>, packet: &RxBufferPacket)
    ensures
        final(rx_data)@ == old(rx_data)@ + packet.bytes(),
{
    let n = if packet.length <= RX_PACKET_CAPACITY { packet.length } else { RX_PACKET_CAPACITY };
    let mut j: usize = 0;
    while j < n
        invariant
            j <= n,
            n <= RX_PACKET_CAPACITY,
            packet.bytes() == packet.data@.take(n as int),
            rx_data@ == old(rx_data)@ + packet.data@.take(j as int),
        decreases n - j,
    {
        rx_data.push(packet.data[j]);
        proof {
            assert(packet.data@.take(j as int + 1) == packet.data@.take(j as int).push(packet.data@[j as int]));
        }
        j = j + 1;
    }
}

/// Takes one received packet off the bridge queue, if there is one, and
/// appends its bytes to `rx_data`; returns whether there was one.
pub fn fetch_rx_data(rx_data: &mut Vec<u8>, device: &mut IntelE1000Device) -> (got: bool)
    ensures
        !got ==> final(rx_data)@ == old(rx_data)@ && delivered(final(device).rx_buffer_consumer)
            == delivered(old(device).rx_buffer_consumer),
        got ==> delivered(final(device).rx_buffer_consumer).len() == delivered(old(device).rx_buffer_consumer).len() + 1
            && delivered(final(device).rx_buffer_consumer).drop_last() == delivered(old(device).rx_buffer_consumer)
            && final(rx_data)@ == old(rx_data)@ + delivered(final(device).rx_buffer_consumer).last(),
{
    match receive_data(device) {
        Some(packet) => {
            append_packet_data(rx_data, &packet);
            true
        },
        None => false,
    }
}

} // verus!
