use vstd::prelude::*;
use crate::registers::{E1000Registers, Register, RegisterWrite};

verus! {

/// EECD: request access to the EEPROM.
pub const EECD_EE_REQ: u32 = 0x40;
/// EECD: access granted by the device.
pub const EECD_EE_GNT: u32 = 0x80;
/// EECD: chip select.
pub const EECD_CS: u32 = 0x02;
/// EERD: start a read.
pub const EERD_START: u32 = 0x01;
/// EERD: read complete.
pub const EERD_DONE: u32 = 0x10;
/// RAH: address valid.
pub const RAH_AV: u32 = 0x8000_0000;
/// RAH: address select field (bits 16 and 17).
pub const RAH_AS_MASK: u32 = 0x0003_0000;

/// EEPROM word address of the first of the three words holding the MAC
/// address.
pub const MAC_EEPROM_FIRST_WORD: u8 = 0;

/// Value of the low receive-address register for `mac`: bytes 0 to 3,
/// least significant first.
pub open spec fn ral_of(mac: [u8; 6]) -> int {
    mac[0] as int + mac[1] * 0x100 + mac[2] * 0x1_0000 + mac[3] * 0x100_0000
}

/// Value of the high receive-address register for `mac`: bytes 4 and 5,
/// address select zero (exact match), address valid set.
pub open spec fn rah_of(mac: [u8; 6]) -> int {
    mac[4] as int + mac[5] * 0x100 + 0x8000_0000
}

/// The MAC address as one integer, byte 0 least significant.
pub open spec fn mac_as_int(mac: [u8; 6]) -> int {
    mac[0] as int + mac[1] * 0x100 + mac[2] * 0x1_0000 + mac[3] * 0x100_0000 + mac[4] * 0x1_0000_0000
        + mac[5] * 0x100_0000_0000
}

/// Byte `i` (least significant first) of `v`.
pub open spec fn byte_of(v: int, i: nat) -> int
    decreases i,
{
    if i == 0 {
        v % 0x100
    } else {
        byte_of(v / 0x100, (i - 1) as nat)
    }
}

/// Whether an EERD value reports a finished read.
pub open spec fn eerd_done(eerd: u32) -> bool {
    (eerd / 0x10) % 2 == 1
}

/// The data word of a finished EERD read (its upper 16 bits).
pub open spec fn eerd_data(eerd: u32) -> int {
    (eerd / 0x1_0000) as int
}

/// The MAC address stored in three EEPROM words, low byte of each word first.
pub open spec fn mac_from_words(words: [u16; 3], mac: [u8; 6]) -> bool {
    &&& mac[0] == words[0] % 0x100
    &&& mac[1] == words[0] / 0x100
    &&& mac[2] == words[1] % 0x100
    &&& mac[3] == words[1] / 0x100
    &&& mac[4] == words[2] % 0x100
    &&& mac[5] == words[2] / 0x100
}

impl E1000Registers {
    /// EECD value with `bit` set.
    pub fn set_eecd_bit(eecd: u32, bit: u32) -> (r: u32)
        ensures
            r == eecd | bit,
    {
        eecd | bit
    }

    /// EECD value with `bit` cleared.
    pub fn clear_eecd_bit(eecd: u32, bit: u32) -> (r: u32)
        ensures
            r == eecd & !bit,
    {
        eecd & !bit
    }

    /// Whether the device has granted EEPROM access.
    pub fn eeprom_granted(eecd: u32) -> (r: bool)
        ensures
            r == ((eecd / 0x80) % 2 == 1),
    {
        let r = eecd & EECD_EE_GNT != 0;
        assert(r == ((eecd / 0x80) % 2 == 1)) by (bit_vector)
            requires
                r == (eecd & 0x80u32 != 0),
        ;
        r
    }

    /// EERD value that starts a read of the EEPROM word at `address`.
    pub fn eeprom_read_command(address: u8) -> (r: u32)
        ensures
            r == address * 0x100 + 1,
    {
        let r = ((address as u32) << 8) | EERD_START;
        assert(r == address * 0x100 + 1) by (bit_vector)
            requires
                r == (((address as u32) << 8u32) | 1u32),
        ;
        r
    }

    /// Reads the outcome of an EEPROM read from the EERD value `eerd`:
    /// the data word once the read is complete, `None` while it is not.
    pub fn read_eeprom(eerd: u32) -> (r: Option<u16>)
        ensures
            r is Some <==> eerd_done(eerd),
            r matches Some(w) ==> w == eerd_data(eerd),
    {
        let done = eerd & EERD_DONE != 0;
        assert(done == ((eerd / 0x10) % 2 == 1)) by (bit_vector)
            requires
                done == (eerd & 0x10u32 != 0),
        ;
        if done {
            let w = (eerd >> 16) as u16;
            assert(w == eerd / 0x1_0000) by (bit_vector)
                requires
                    w == (eerd >> 16u32) as u16,
            ;
            Some(w)
        } else {
            None
        }
    }

    /// The MAC address held in the three EEPROM words read from
    /// `MAC_EEPROM_FIRST_WORD` on: each word gives two bytes, low byte first.
    pub fn read_mac_address(words: &[u16; 3]) -> (mac: [u8; 6])
        ensures
            mac_from_words(*words, mac),
    {
        let mut mac = [0u8; 6];
        let mut i: usize = 0;
        while i < 3
            invariant
                0 <= i <= 3,
                forall|j: int|
                    0 <= j < i ==> mac[2 * j] == words[j] % 0x100 && mac[2 * j + 1] == words[j]
                        / 0x100,
            decreases 3 - i,
        {
            let word = words[i];
            let low = (word & 0xFF) as u8;
            let high = (word >> 8) as u8;
            assert(low == word % 0x100 && high == word / 0x100) by (bit_vector)
                requires
                    low == (word & 0xFFu16) as u8,
                    high == (word >> 8u16) as u8,
            ;
            mac[i * 2] = low;
            mac[i * 2 + 1] = high;
            i = i + 1;
        }
        mac
    }

    /// The two writes that install `mac` as the receive address: RAL0 then
    /// RAH0, with the address-valid bit set and exact-match address select.
    pub fn set_mac_address(&self, mac: &[u8; 6]) -> (writes: Vec<RegisterWrite>)
        ensures
            writes@.len() == 2,
            writes@[0].register == Register::Ral0,
            writes@[0].value == ral_of(*mac),
            writes@[1].register == Register::Rah0,
            writes@[1].value == rah_of(*mac),
    {
        let (b0, b1, b2, b3, b4, b5) = (mac[0], mac[1], mac[2], mac[3], mac[4], mac[5]);
        let ral = (b0 as u32) | ((b1 as u32) << 8) | ((b2 as u32) << 16) | ((b3 as u32) << 24);
        let rah = (((b4 as u32) | ((b5 as u32) << 8)) | RAH_AV) & !RAH_AS_MASK;
        assert(ral == b0 + b1 * 0x100 + b2 * 0x1_0000 + b3 * 0x100_0000) by (bit_vector)
            requires
                ral == (b0 as u32) | ((b1 as u32) << 8u32) | ((b2 as u32) << 16u32) | ((b3 as u32)
                    << 24u32),
        ;
        assert(rah == b4 + b5 * 0x100 + 0x8000_0000) by (bit_vector)
            requires
                rah == (((b4 as u32) | ((b5 as u32) << 8u32)) | 0x8000_0000u32) & !0x0003_0000u32,
        ;
        let mut writes: Vec<RegisterWrite> = Vec::new();
        writes.push(RegisterWrite { register: Register::Ral0, value: ral });
        writes.push(RegisterWrite { register: Register::Rah0, value: rah });
        writes
    }

    /// The MAC address held in the receive-address registers, and whether
    /// the address-valid bit is set.
    pub fn mac_from_receive_address(ral: u32, rah: u32) -> (r: ([u8; 6], bool))
        ensures
            r.0[0] == ral % 0x100,
            r.0[1] == (ral / 0x100) % 0x100,
            r.0[2] == (ral / 0x1_0000) % 0x100,
            r.0[3] == ral / 0x100_0000,
            r.0[4] == rah % 0x100,
            r.0[5] == (rah / 0x100) % 0x100,
            r.1 == (rah / 0x8000_0000 == 1),
    {
        let b0 = (ral & 0xFF) as u8;
        let b1 = ((ral >> 8) & 0xFF) as u8;
        let b2 = ((ral >> 16) & 0xFF) as u8;
        let b3 = (ral >> 24) as u8;
        let b4 = (rah & 0xFF) as u8;
        let b5 = ((rah >> 8) & 0xFF) as u8;
        let valid = rah & RAH_AV != 0;
        assert(b0 == ral % 0x100 && b1 == (ral / 0x100) % 0x100 && b2 == (ral / 0x1_0000) % 0x100
            && b3 == ral / 0x100_0000) by (bit_vector)
            requires
                b0 == (ral & 0xFFu32) as u8,
                b1 == ((ral >> 8u32) & 0xFFu32) as u8,
                b2 == ((ral >> 16u32) & 0xFFu32) as u8,
                b3 == (ral >> 24u32) as u8,
        ;
        assert(b4 == rah % 0x100 && b5 == (rah / 0x100) % 0x100 && valid == (rah / 0x8000_0000
            == 1)) by (bit_vector)
            requires
                b4 == (rah & 0xFFu32) as u8,
                b5 == ((rah >> 8u32) & 0xFFu32) as u8,
                valid == (rah & 0x8000_0000u32 != 0),
        ;
        ([b0, b1, b2, b3, b4, b5], valid)
    }
}

/// The MAC address packed into one integer, byte 0 least significant, as the
/// system-call interface hands it to applications.
pub fn sys_get_mac_address(mac: &[u8; 6]) -> (r: u64)
    ensures
        r == mac_as_int(*mac),
{
    let (b0, b1, b2, b3, b4, b5) = (mac[0], mac[1], mac[2], mac[3], mac[4], mac[5]);
    let r = (b0 as u64) | ((b1 as u64) << 8) | ((b2 as u64) << 16) | ((b3 as u64) << 24) | ((
    b4 as u64) << 32) | ((b5 as u64) << 40);
    assert(r == b0 + b1 * 0x100 + b2 * 0x1_0000 + b3 * 0x100_0000 + b4 * 0x1_0000_0000 + b5
        * 0x100_0000_0000) by (bit_vector)
        requires
            r == (b0 as u64) | ((b1 as u64) << 8u64) | ((b2 as u64) << 16u64) | ((b3 as u64)
                << 24u64) | ((b4 as u64) << 32u64) | ((b5 as u64) << 40u64),
    ;
    r
}

/// The six low bytes of `value`, least significant first: the MAC address
/// packed by `sys_get_mac_address`.
pub fn usize_to_mac(value: u64) -> (mac: [u8; 6])
    ensures
        forall|i: int| 0 <= i < 6 ==> mac[i] == byte_of(value as int, i as nat),
{
    let v = value;
    let b0 = (v & 0xff) as u8;
    let b1 = ((v >> 8) & 0xff) as u8;
    let b2 = ((v >> 16) & 0xff) as u8;
    let b3 = ((v >> 24) & 0xff) as u8;
    let b4 = ((v >> 32) & 0xff) as u8;
    let b5 = ((v >> 40) & 0xff) as u8;
    assert(b0 == v % 0x100 && b1 == (v / 0x100) % 0x100 && b2 == (v / 0x1_0000) % 0x100 && b3 == (v
        / 0x100_0000) % 0x100 && b4 == (v / 0x1_0000_0000) % 0x100 && b5 == (v / 0x100_0000_0000)
        % 0x100) by (bit_vector)
        requires
            b0 == (v & 0xffu64) as u8,
            b1 == ((v >> 8u64) & 0xffu64) as u8,
            b2 == ((v >> 16u64) & 0xffu64) as u8,
            b3 == ((v >> 24u64) & 0xffu64) as u8,
            b4 == ((v >> 32u64) & 0xffu64) as u8,
            b5 == ((v >> 40u64) & 0xffu64) as u8,
    ;
    let mac = [b0, b1, b2, b3, b4, b5];
    proof {
        lemma_bytes_of(v as int);
    }
    mac
}

proof fn lemma_bytes_of(v: int)
    requires
        v >= 0,
    ensures
        byte_of(v, 0) == v % 0x100,
        byte_of(v, 1) == (v / 0x100) % 0x100,
        byte_of(v, 2) == (v / 0x1_0000) % 0x100,
        byte_of(v, 3) == (v / 0x100_0000) % 0x100,
        byte_of(v, 4) == (v / 0x1_0000_0000) % 0x100,
        byte_of(v, 5) == (v / 0x100_0000_0000) % 0x100,
{
    reveal_with_fuel(byte_of, 6);
    vstd::arithmetic::div_mod::lemma_div_denominator(v, 0x100, 0x100);
    vstd::arithmetic::div_mod::lemma_div_denominator(v / 0x100, 0x100, 0x100);
    vstd::arithmetic::div_mod::lemma_div_denominator(v, 0x100, 0x1_0000);
    vstd::arithmetic::div_mod::lemma_div_denominator(v / 0x100, 0x100, 0x1_0000);
    vstd::arithmetic::div_mod::lemma_div_denominator(v, 0x100, 0x100_0000);
    vstd::arithmetic::div_mod::lemma_div_denominator(v / 0x100, 0x100, 0x100_0000);
    vstd::arithmetic::div_mod::lemma_div_denominator(v, 0x100, 0x1_0000_0000);
    vstd::arithmetic::div_mod::lemma_div_denominator(v / 0x100, 0x100, 0x1_0000_0000);
}

} // verus!
