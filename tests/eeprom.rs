use e1000::device::DeviceError;
use e1000::eeprom::{BusAction, MacAddressRead, MacReadPhase};
use e1000::registers::Register;

/// A device that grants EEPROM access on request and answers word reads
/// from `words`, after `delay` polls each.
struct FakeEeprom {
    eecd: u32,
    eerd: u32,
    words: [u16; 3],
    grant: bool,
    delay: u32,
    pending: u32,
}

impl FakeEeprom {
    fn read(&mut self, reg: Register) -> u32 {
        match reg {
            Register::Eecd => self.eecd,
            Register::Eerd => {
                if self.pending > 0 {
                    self.pending -= 1;
                    self.eerd & !0x10
                } else {
                    self.eerd
                }
            }
            _ => panic!("unexpected read"),
        }
    }

    fn write(&mut self, reg: Register, value: u32) {
        match reg {
            Register::Eecd => {
                let req = value & 0x40 != 0;
                self.eecd = if req && self.grant { value | 0x80 } else { value & !0x80 };
            }
            Register::Eerd => {
                assert_eq!(value & 1, 1);
                let address = (value >> 8) as usize;
                self.eerd = ((self.words[address] as u32) << 16) | 0x10 | (value & 0xFFFF);
                self.pending = self.delay;
            }
            _ => panic!("unexpected write"),
        }
    }
}

fn run(device: &mut FakeEeprom) -> (MacAddressRead, usize) {
    let mut reader = MacAddressRead::new();
    let mut input = 0;
    let mut steps = 0;
    loop {
        steps += 1;
        match reader.step(input) {
            BusAction::Read(reg) => input = device.read(reg),
            BusAction::Write(w) => {
                device.write(w.register, w.value);
                input = 0;
            }
            BusAction::Finished => return (reader, steps),
        }
    }
}

#[test]
fn mac_handshake_reads_three_words() {
    let mut device = FakeEeprom { eecd: 0x1, eerd: 0, words: [0x5452, 0x1200, 0x5634], grant: true, delay: 3, pending: 0 };
    let (reader, _) = run(&mut device);
    assert_eq!(reader.phase, MacReadPhase::Done);
    assert_eq!(reader.result(), Ok([0x52, 0x54, 0x00, 0x12, 0x34, 0x56]));
    // Chip select and request are released; other EECD bits kept.
    assert_eq!(device.eecd & (0x40 | 0x02), 0);
    assert_eq!(device.eecd & 0x1, 0x1);
}

#[test]
fn mac_handshake_gives_up_without_grant() {
    let mut device = FakeEeprom { eecd: 0, eerd: 0, words: [0; 3], grant: false, delay: 0, pending: 0 };
    let (reader, steps) = run(&mut device);
    assert!(reader.failed);
    assert_eq!(reader.result(), Err(DeviceError::Unresponsive));
    assert_eq!(device.eecd & 0x40, 0);
    assert!(steps > 1_000_000);
}

#[test]
fn finished_handshake_stays_finished() {
    let mut device = FakeEeprom { eecd: 0, eerd: 0, words: [1, 2, 3], grant: true, delay: 0, pending: 0 };
    let (mut reader, _) = run(&mut device);
    assert_eq!(reader.step(0), BusAction::Finished);
    assert_eq!(reader.result(), Ok([1, 0, 2, 0, 3, 0]));
}
