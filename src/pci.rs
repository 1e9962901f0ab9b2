use vstd::prelude::*;
use pci_types::Bar;
use crate::device::DeviceError;
use crate::registers::LAST_REGISTER_OFFSET;

verus! {

/// Size of a page of the kernel's address space.
pub const PAGE_SIZE: u64 = 4096;

#[verifier::external_type_specification]
#[verifier::external_body]
pub struct ExBar(Bar);

/// What a base address register describes, as plain values.
#[derive(Clone, Copy, Debug, PartialEq, Eq, Structural)]
pub enum BarInfo {
    Memory { address: u64, size: u64 },
    Io,
}

/// The register window to map: its start address and its length in pages.
#[derive(Clone, Copy, Debug, PartialEq, Eq, Structural)]
pub struct MmioWindow {
    pub address: u64,
    pub pages: u64,
}

/// Relies on the variants of `pci_types::Bar`: a 32-bit or 64-bit memory
/// BAR gives its address and size, an I/O BAR its port only.
#[verifier::external_body]
fn bar_info(bar: &Bar) -> BarInfo {
    match *bar {
        Bar::Memory32 { address, size, .. } => BarInfo::Memory { address: address as u64, size: size as u64 },
        Bar::Memory64 { address, size, .. } => BarInfo::Memory { address, size },
        Bar::Io { .. } => BarInfo::Io,
    }
}

/// The register window that BAR 0 describes: it must be memory-mapped,
/// page aligned and far enough below the top of the address space to hold
/// every register; its length is counted in whole pages.
pub fn mmio_window(info: BarInfo) -> (r: Result<MmioWindow, DeviceError>)
    ensures
        match info {
            BarInfo::Io => r == Err::<MmioWindow, DeviceError>(DeviceError::NoMemoryBar),
            BarInfo::Memory { address, size } => {
                if address % PAGE_SIZE != 0 || address > u64::MAX - LAST_REGISTER_OFFSET {
                    r == Err::<MmioWindow, DeviceError>(DeviceError::BadWindow)
                } else {
                    r == Ok::<MmioWindow, DeviceError>(MmioWindow { address, pages: size / PAGE_SIZE })
                }
            },
        },
{
    match info {
        BarInfo::Io => Err(DeviceError::NoMemoryBar),
        BarInfo::Memory { address, size } => {
            if address % PAGE_SIZE != 0 || address > u64::MAX - LAST_REGISTER_OFFSET {
                Err(DeviceError::BadWindow)
            } else {
                Ok(MmioWindow { address, pages: size / PAGE_SIZE })
            }
        },
    }
}

/// The register window of the controller from its BAR 0.
pub fn map_mmio_space(bar0: &Bar) -> (r: Result<MmioWindow, DeviceError>)
    ensures
        r matches Ok(w) ==> w.address % PAGE_SIZE == 0 && w.address <= u64::MAX - LAST_REGISTER_OFFSET,
{
    mmio_window(bar_info(bar0))
}

} // verus!
