use vstd::prelude::*;
use crate::device::{DeviceError, POLL_LIMIT};
use crate::mac::{eerd_data, eerd_done, mac_from_words, EECD_CS, EECD_EE_REQ, MAC_EEPROM_FIRST_WORD};
use crate::registers::{E1000Registers, Register, RegisterWrite};

verus! {

/// One register access that the MAC-address handshake asks for, or its end.
#[derive(Clone, Copy, Debug, PartialEq, Eq, Structural)]
pub enum BusAction {
    /// Read the register and pass its value to the next step.
    Read(Register),
    /// Perform the write; the next step's input is ignored.
    Write(RegisterWrite),
    /// The handshake is over and the EEPROM released.
    Finished,
}

/// Where the handshake stands.
#[derive(Clone, Copy, Debug, PartialEq, Eq, Structural)]
pub enum MacReadPhase {
    /// Read EECD to set the request bit.
    Start,
    /// The input is EECD: write it back with the request bit set.
    Request,
    /// The input is EECD: wait for the grant bit.
    AwaitGrant,
    /// The input is EECD: write it back with chip select set.
    Select,
    /// The input is EERD: wait for word `i` to be read.
    AwaitWord(u8),
    /// The input is EECD: write it back with chip select cleared.
    Deselect,
    /// Read EECD to clear the request bit.
    Release,
    /// The input is EECD: write it back with the request bit cleared.
    ClearRequest,
    /// Nothing left to do.
    Done,
}

/// The state of a MAC-address read from the EEPROM: request access, wait
/// for the grant, select the chip, read three words, deselect, release.
/// A wait that exceeds `POLL_LIMIT` polls gives up, still releasing the
/// EEPROM, and the read ends unresponsive.
#[derive(Clone, Copy, Debug, PartialEq, Eq, Structural)]
pub struct MacAddressRead {
    pub phase: MacReadPhase,
    pub attempts: u32,
    pub word0: u16,
    pub word1: u16,
    pub word2: u16,
    pub failed: bool,
}

/// `s` with word `i` set to `w`.
pub open spec fn with_word(s: MacAddressRead, i: u8, w: u16) -> MacAddressRead {
    if i == 0 {
        MacAddressRead { word0: w, ..s }
    } else if i == 1 {
        MacAddressRead { word1: w, ..s }
    } else {
        MacAddressRead { word2: w, ..s }
    }
}

/// EERD write that starts the read of word `i`.
pub open spec fn word_command(i: u8) -> RegisterWrite {
    RegisterWrite { register: Register::Eerd, value: ((MAC_EEPROM_FIRST_WORD + i) * 0x100 + 1) as u32 }
}

/// After a failed wait: let go of the EEPROM.
pub open spec fn give_up(s: MacAddressRead, phase: MacReadPhase) -> (MacAddressRead, BusAction) {
    (MacAddressRead { phase, attempts: 0, failed: true, ..s }, BusAction::Read(Register::Eecd))
}

/// The next state and action of the handshake in state `s`, given the
/// value `input` that the previous action read.
pub open spec fn mac_read_next(s: MacAddressRead, input: u32) -> (MacAddressRead, BusAction) {
    match s.phase {
        MacReadPhase::Start => (MacAddressRead { phase: MacReadPhase::Request, ..s }, BusAction::Read(Register::Eecd)),
        MacReadPhase::Request => (
            MacAddressRead { phase: MacReadPhase::AwaitGrant, attempts: 0, ..s },
            BusAction::Write(RegisterWrite { register: Register::Eecd, value: input | EECD_EE_REQ }),
        ),
        MacReadPhase::AwaitGrant => {
            if (input / 0x80) % 2 == 1 {
                (MacAddressRead { phase: MacReadPhase::Select, attempts: 0, ..s }, BusAction::Read(Register::Eecd))
            } else if s.attempts < POLL_LIMIT {
                (MacAddressRead { attempts: (s.attempts + 1) as u32, ..s }, BusAction::Read(Register::Eecd))
            } else {
                give_up(s, MacReadPhase::ClearRequest)
            }
        },
        MacReadPhase::Select => (
            MacAddressRead { phase: MacReadPhase::AwaitWord(0), attempts: 0, ..s },
            BusAction::Write(RegisterWrite { register: Register::Eecd, value: input | EECD_CS }),
        ),
        MacReadPhase::AwaitWord(i) => {
            if s.attempts == 0 {
                (MacAddressRead { attempts: 1, ..s }, BusAction::Write(word_command(i)))
            } else if s.attempts == 1 {
                (MacAddressRead { attempts: 2, ..s }, BusAction::Read(Register::Eerd))
            } else if eerd_done(input) {
                let t = with_word(s, i, eerd_data(input) as u16);
                if i < 2 {
                    (MacAddressRead { phase: MacReadPhase::AwaitWord((i + 1) as u8), attempts: 1, ..t },
                        BusAction::Write(word_command((i + 1) as u8)))
                } else {
                    (MacAddressRead { phase: MacReadPhase::Deselect, attempts: 0, ..t },
                        BusAction::Read(Register::Eecd))
                }
            } else if s.attempts < POLL_LIMIT {
                (MacAddressRead { attempts: (s.attempts + 1) as u32, ..s }, BusAction::Read(Register::Eerd))
            } else {
                give_up(s, MacReadPhase::Deselect)
            }
        },
        MacReadPhase::Deselect => (
            MacAddressRead { phase: MacReadPhase::Release, ..s },
            BusAction::Write(RegisterWrite { register: Register::Eecd, value: input & !EECD_CS }),
        ),
        MacReadPhase::Release => (MacAddressRead { phase: MacReadPhase::ClearRequest, ..s }, BusAction::Read(Register::Eecd)),
        MacReadPhase::ClearRequest => (
            MacAddressRead { phase: MacReadPhase::Done, ..s },
            BusAction::Write(RegisterWrite { register: Register::Eecd, value: input & !EECD_EE_REQ }),
        ),
        MacReadPhase::Done => (s, BusAction::Finished),
    }
}

impl MacAddressRead {
    pub fn new() -> (r: Self)
        ensures
            r.phase == MacReadPhase::Start,
            r.attempts == 0,
            !r.failed,
    {
        MacAddressRead { phase: MacReadPhase::Start, attempts: 0, word0: 0, word1: 0, word2: 0, failed: false }
    }

    /// Advances the handshake: `input` is the value that the previous
    /// action read (ignored after a write or at the start).
    pub fn step(&mut self, input: u32) -> (action: BusAction)
        requires
            old(self).phase matches MacReadPhase::AwaitWord(i) ==> i < 3,
        ensures
            (*final(self), action) == mac_read_next(*old(self), input),
            final(self).phase matches MacReadPhase::AwaitWord(i) ==> i < 3,
    {
        let s = *self;
        let (next, action) = match s.phase {
            MacReadPhase::Start => (MacAddressRead { phase: MacReadPhase::Request, ..s }, BusAction::Read(Register::Eecd)),
            MacReadPhase::Request => (
                MacAddressRead { phase: MacReadPhase::AwaitGrant, attempts: 0, ..s },
                BusAction::Write(RegisterWrite { register: Register::Eecd, value: E1000Registers::set_eecd_bit(input, EECD_EE_REQ) }),
            ),
            MacReadPhase::AwaitGrant => {
                if E1000Registers::eeprom_granted(input) {
                    (MacAddressRead { phase: MacReadPhase::Select, attempts: 0, ..s }, BusAction::Read(Register::Eecd))
                } else if s.attempts < POLL_LIMIT {
                    (MacAddressRead { attempts: s.attempts + 1, ..s }, BusAction::Read(Register::Eecd))
                } else {
                    (MacAddressRead { phase: MacReadPhase::ClearRequest, attempts: 0, failed: true, ..s }, BusAction::Read(Register::Eecd))
                }
            },
            MacReadPhase::Select => (
                MacAddressRead { phase: MacReadPhase::AwaitWord(0), attempts: 0, ..s },
                BusAction::Write(RegisterWrite { register: Register::Eecd, value: E1000Registers::set_eecd_bit(input, EECD_CS) }),
            ),
            MacReadPhase::AwaitWord(i) => {
                if s.attempts == 0 {
                    (MacAddressRead { attempts: 1, ..s }, BusAction::Write(RegisterWrite {
                        register: Register::Eerd,
                        value: E1000Registers::eeprom_read_command(MAC_EEPROM_FIRST_WORD + i),
                    }))
                } else if s.attempts == 1 {
                    (MacAddressRead { attempts: 2, ..s }, BusAction::Read(Register::Eerd))
                } else {
                    match E1000Registers::read_eeprom(input) {
                        Some(w) => {
                            let t = if i == 0 {
                                MacAddressRead { word0: w, ..s }
                            } else if i == 1 {
                                MacAddressRead { word1: w, ..s }
                            } else {
                                MacAddressRead { word2: w, ..s }
                            };
                            if i < 2 {
                                (MacAddressRead { phase: MacReadPhase::AwaitWord(i + 1), attempts: 1, ..t },
                                    BusAction::Write(RegisterWrite {
                                        register: Register::Eerd,
                                        value: E1000Registers::eeprom_read_command(MAC_EEPROM_FIRST_WORD + i + 1),
                                    }))
                            } else {
                                (MacAddressRead { phase: MacReadPhase::Deselect, attempts: 0, ..t },
                                    BusAction::Read(Register::Eecd))
                            }
                        },
                        None => {
                            if s.attempts < POLL_LIMIT {
                                (MacAddressRead { attempts: s.attempts + 1, ..s }, BusAction::Read(Register::Eerd))
                            } else {
                                (MacAddressRead { phase: MacReadPhase::Deselect, attempts: 0, failed: true, ..s },
                                    BusAction::Read(Register::Eecd))
                            }
                        },
                    }
                }
            },
            MacReadPhase::Deselect => (
                MacAddressRead { phase: MacReadPhase::Release, ..s },
                BusAction::Write(RegisterWrite { register: Register::Eecd, value: E1000Registers::clear_eecd_bit(input, EECD_CS) }),
            ),
            MacReadPhase::Release => (MacAddressRead { phase: MacReadPhase::ClearRequest, ..s }, BusAction::Read(Register::Eecd)),
            MacReadPhase::ClearRequest => (
                MacAddressRead { phase: MacReadPhase::Done, ..s },
                BusAction::Write(RegisterWrite { register: Register::Eecd, value: E1000Registers::clear_eecd_bit(input, EECD_EE_REQ) }),
            ),
            MacReadPhase::Done => (s, BusAction::Finished),
        };
        *self = next;
        action
    }

    /// The outcome once the handshake is over: the MAC address that the
    /// three words hold, or why it could not be read.
    pub fn result(&self) -> (r: Result<[u8; 6], DeviceError>)
        ensures
            self.failed ==> r == Err::<[u8; 6], DeviceError>(DeviceError::Unresponsive),
            !self.failed ==> (r matches Ok(mac) && mac_from_words([self.word0, self.word1, self.word2], mac)),
    {
        if self.failed {
            Err(DeviceError::Unresponsive)
        } else {
            Ok(E1000Registers::read_mac_address(&[self.word0, self.word1, self.word2]))
        }
    }
}

} // verus!
