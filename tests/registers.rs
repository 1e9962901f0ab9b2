use e1000::device::{poll_decision, PollStep, POLL_LIMIT};
use e1000::ethernet::{build_ethernet_header, EthernetHeader};
use e1000::mac::{sys_get_mac_address, usize_to_mac};
use e1000::registers::{E1000Registers, Register, RegisterFile, RegisterWrite};

#[test]
fn register_addresses_follow_offsets() {
    let regs = E1000Registers::new(0xFEBC_0000);
    assert_eq!(regs.base(), 0xFEBC_0000);
    assert_eq!(regs.address(Register::Ctrl), 0xFEBC_0000);
    assert_eq!(regs.address(Register::Icr), 0xFEBC_00C0);
    assert_eq!(regs.address(Register::Rdt), 0xFEBC_2818);
    assert_eq!(regs.address(Register::Tdt), 0xFEBC_3818);
    assert_eq!(regs.address(Register::Rah0), 0xFEBC_5404);
    assert_eq!(Register::Fcttv.offset(), 0x170);
    assert_eq!(Register::Ims.offset(), 0xD0);
}

#[test]
fn register_file_reads_back_writes() {
    let mut file = RegisterFile::new();
    assert_eq!(file.read(Register::Status), 0);
    file.write(Register::Tdt, 9);
    file.apply(&vec![
        RegisterWrite { register: Register::Rdt, value: 3 },
        RegisterWrite { register: Register::Rdt, value: 4 },
    ]);
    assert_eq!(file.read(Register::Tdt), 9);
    assert_eq!(file.read(Register::Rdt), 4);
    assert_eq!(file.read(Register::Rdh), 0);
}

#[test]
fn set_mac_address_reads_back() {
    let regs = E1000Registers::new(0);
    let mac = [0x52, 0x54, 0x00, 0x12, 0x34, 0x56];
    let writes = regs.set_mac_address(&mac);
    let mut file = RegisterFile::new();
    file.write(Register::Rah0, 0x0003_0000);
    file.apply(&writes);
    let ral = file.read(Register::Ral0);
    let rah = file.read(Register::Rah0);
    assert_eq!(ral, 0x1200_5452);
    assert_eq!(rah, 0x8000_5634);
    let (back, valid) = E1000Registers::mac_from_receive_address(ral, rah);
    assert_eq!(back, mac);
    assert!(valid);
}

#[test]
fn eeprom_handshake_values() {
    assert_eq!(E1000Registers::eeprom_read_command(0), 0x001);
    assert_eq!(E1000Registers::eeprom_read_command(2), 0x201);
    assert_eq!(E1000Registers::read_eeprom(0x5452_0010), Some(0x5452));
    assert_eq!(E1000Registers::read_eeprom(0x5452_0001), None);
    assert_eq!(E1000Registers::set_eecd_bit(0x1, 0x40), 0x41);
    assert_eq!(E1000Registers::clear_eecd_bit(0x43, 0x02), 0x41);
    assert!(E1000Registers::eeprom_granted(0xC0));
    assert!(!E1000Registers::eeprom_granted(0x40));
}

#[test]
fn mac_from_eeprom_words() {
    let mac = E1000Registers::read_mac_address(&[0x5452, 0x1200, 0x5634]);
    assert_eq!(mac, [0x52, 0x54, 0x00, 0x12, 0x34, 0x56]);
}

#[test]
fn reset_sequence_values() {
    assert_eq!(E1000Registers::reset_command(), RegisterWrite { register: Register::Ctrl, value: 1 << 26 });
    assert!(!E1000Registers::reset_complete(0x0400_0041));
    assert!(E1000Registers::reset_complete(0x41));
    let writes = E1000Registers::flow_control_writes();
    let regs: Vec<Register> = writes.iter().map(|w| w.register).collect();
    assert_eq!(regs, vec![Register::Fcal, Register::Fcah, Register::Fct, Register::Fcttv]);
    assert!(writes.iter().all(|w| w.value == 0));
}

#[test]
fn mac_packing_round_trip() {
    let mac = [0x52, 0x54, 0x00, 0x12, 0x34, 0x56];
    let packed = sys_get_mac_address(&mac);
    assert_eq!(packed, 0x5634_1200_5452);
    assert_eq!(usize_to_mac(packed), mac);
    assert_eq!(usize_to_mac(0xFFFF_0102_0304_0506), [6, 5, 4, 3, 2, 1]);
}

#[test]
fn ethernet_header_bytes() {
    let h = build_ethernet_header([1, 2, 3, 4, 5, 6]);
    assert_eq!(
        h.to_bytes(),
        [0xff, 0xff, 0xff, 0xff, 0xff, 0xff, 1, 2, 3, 4, 5, 6, 0x08, 0x00]
    );
    let custom = EthernetHeader::new([9; 6], [8; 6], 0x86DD);
    assert_eq!(&custom.to_bytes()[12..], &[0x86, 0xDD]);
}

#[test]
fn bounded_polling() {
    assert_eq!(poll_decision(0, true), PollStep::Finished);
    assert_eq!(poll_decision(5, false), PollStep::Continue);
    assert_eq!(poll_decision(POLL_LIMIT, false), PollStep::Unresponsive);
}
