use e1000::device::{check_device_count, DeviceError};
use e1000::packet::{protocol_from_tag, NetworkProtocol};
use e1000::pci::{map_mmio_space, mmio_window, BarInfo, MmioWindow};
use pci_types::Bar;

#[test]
fn exactly_one_device_is_expected() {
    assert_eq!(check_device_count(1), Ok(()));
    assert_eq!(check_device_count(0), Err(DeviceError::NotFound));
    assert_eq!(check_device_count(2), Err(DeviceError::MultipleFound));
}

#[test]
fn protocol_tags() {
    assert_eq!(protocol_from_tag(0), Some(NetworkProtocol::Ethernet));
    assert_eq!(protocol_from_tag(1), None);
}

#[test]
fn mmio_window_from_bar_info() {
    assert_eq!(
        mmio_window(BarInfo::Memory { address: 0xFEBC_0000, size: 0x2_0000 }),
        Ok(MmioWindow { address: 0xFEBC_0000, pages: 32 })
    );
    assert_eq!(mmio_window(BarInfo::Io), Err(DeviceError::NoMemoryBar));
    assert_eq!(mmio_window(BarInfo::Memory { address: 0xFEBC_0010, size: 0x2_0000 }), Err(DeviceError::BadWindow));
    assert_eq!(mmio_window(BarInfo::Memory { address: u64::MAX - 0xFFF, size: 0x1000 }), Err(DeviceError::BadWindow));
}

#[test]
fn mmio_window_from_pci_bar() {
    let bar32 = Bar::Memory32 { address: 0xFEBC_0000, size: 0x2_0000, prefetchable: false };
    assert_eq!(map_mmio_space(&bar32), Ok(MmioWindow { address: 0xFEBC_0000, pages: 32 }));
    let bar64 = Bar::Memory64 { address: 0x1_0000_0000, size: 0x4000, prefetchable: true };
    assert_eq!(map_mmio_space(&bar64), Ok(MmioWindow { address: 0x1_0000_0000, pages: 4 }));
    assert_eq!(map_mmio_space(&Bar::Io { port: 0xC000 }), Err(DeviceError::NoMemoryBar));
}
