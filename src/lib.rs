//! Driver logic for the Intel 8254x (e1000) network controller: register
//! layout and register values, transmit and receive descriptor rings, packet
//! segmentation, interrupt decisions and the hand-off of received frames to
//! normal context through a lock-free queue.
//!
//! Everything that touches the hardware itself (volatile register access,
//! physical memory, the interrupt controller, the PCI bus) is left to the
//! caller: the functions here take the values that were read and return the
//! values that have to be written.

pub mod registers;
pub mod mac;
pub mod packet;
pub mod descriptor;
pub mod tx_ring;
pub mod bridge;
pub mod rx_ring;
pub mod interrupt;
pub mod device;
pub mod ethernet;
pub mod pci;
pub mod eeprom;
pub mod laws;
