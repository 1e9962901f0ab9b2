use vstd::prelude::*;

verus! {

/// The device registers used by the driver; each is a 32-bit word in the
/// memory-mapped register window.
#[derive(Clone, Copy, Debug, PartialEq, Eq, Structural)]
pub enum Register {
    Ctrl,
    Status,
    Eecd,
    Eerd,
    Mdic,
    Fcal,
    Fcah,
    Fct,
    Rctl,
    Fcttv,
    Icr,
    Ims,
    Imc,
    Tctl,
    Rdbal,
    Rdbah,
    Rdlen,
    Rdh,
    Rdt,
    Tdbal,
    Tdbah,
    Tdlen,
    Tdh,
    Tdt,
    Ral0,
    Rah0,
}

/// Number of registers in the table.
pub const REGISTER_COUNT: usize = 26;

/// Largest byte offset in the register table.
pub const LAST_REGISTER_OFFSET: u64 = 0x5404;

impl Register {
    /// Byte offset of the register from the start of the register window.
    pub open spec fn spec_offset(self) -> u64 {
        match self {
            Register::Ctrl => 0x0000,
            Register::Status => 0x0008,
            Register::Eecd => 0x0010,
            Register::Eerd => 0x0014,
            Register::Mdic => 0x0020,
            Register::Fcal => 0x0028,
            Register::Fcah => 0x002C,
            Register::Fct => 0x0030,
            Register::Rctl => 0x0100,
            Register::Fcttv => 0x0170,
            Register::Icr => 0x00C0,
            Register::Ims => 0x00D0,
            Register::Imc => 0x00D8,
            Register::Tctl => 0x0400,
            Register::Rdbal => 0x2800,
            Register::Rdbah => 0x2804,
            Register::Rdlen => 0x2808,
            Register::Rdh => 0x2810,
            Register::Rdt => 0x2818,
            Register::Tdbal => 0x3800,
            Register::Tdbah => 0x3804,
            Register::Tdlen => 0x3808,
            Register::Tdh => 0x3810,
            Register::Tdt => 0x3818,
            Register::Ral0 => 0x5400,
            Register::Rah0 => 0x5404,
        }
    }

    /// Position of the register in the table, used to hold register values.
    pub open spec fn spec_index(self) -> nat {
        match self {
            Register::Ctrl => 0,
            Register::Status => 1,
            Register::Eecd => 2,
            Register::Eerd => 3,
            Register::Mdic => 4,
            Register::Fcal => 5,
            Register::Fcah => 6,
            Register::Fct => 7,
            Register::Rctl => 8,
            Register::Fcttv => 9,
            Register::Icr => 10,
            Register::Ims => 11,
            Register::Imc => 12,
            Register::Tctl => 13,
            Register::Rdbal => 14,
            Register::Rdbah => 15,
            Register::Rdlen => 16,
            Register::Rdh => 17,
            Register::Rdt => 18,
            Register::Tdbal => 19,
            Register::Tdbah => 20,
            Register::Tdlen => 21,
            Register::Tdh => 22,
            Register::Tdt => 23,
            Register::Ral0 => 24,
            Register::Rah0 => 25,
        }
    }

    pub fn offset(&self) -> (r: u64)
        ensures
            r == self.spec_offset(),
            r <= LAST_REGISTER_OFFSET,
    {
        match self {
            Register::Ctrl => 0x0000,
            Register::Status => 0x0008,
            Register::Eecd => 0x0010,
            Register::Eerd => 0x0014,
            Register::Mdic => 0x0020,
            Register::Fcal => 0x0028,
            Register::Fcah => 0x002C,
            Register::Fct => 0x0030,
            Register::Rctl => 0x0100,
            Register::Fcttv => 0x0170,
            Register::Icr => 0x00C0,
            Register::Ims => 0x00D0,
            Register::Imc => 0x00D8,
            Register::Tctl => 0x0400,
            Register::Rdbal => 0x2800,
            Register::Rdbah => 0x2804,
            Register::Rdlen => 0x2808,
            Register::Rdh => 0x2810,
            Register::Rdt => 0x2818,
            Register::Tdbal => 0x3800,
            Register::Tdbah => 0x3804,
            Register::Tdlen => 0x3808,
            Register::Tdh => 0x3810,
            Register::Tdt => 0x3818,
            Register::Ral0 => 0x5400,
            Register::Rah0 => 0x5404,
        }
    }

    pub fn index(&self) -> (r: usize)
        ensures
            r == self.spec_index(),
            r < REGISTER_COUNT,
    {
        match self {
            Register::Ctrl => 0,
            Register::Status => 1,
            Register::Eecd => 2,
            Register::Eerd => 3,
            Register::Mdic => 4,
            Register::Fcal => 5,
            Register::Fcah => 6,
            Register::Fct => 7,
            Register::Rctl => 8,
            Register::Fcttv => 9,
            Register::Icr => 10,
            Register::Ims => 11,
            Register::Imc => 12,
            Register::Tctl => 13,
            Register::Rdbal => 14,
            Register::Rdbah => 15,
            Register::Rdlen => 16,
            Register::Rdh => 17,
            Register::Rdt => 18,
            Register::Tdbal => 19,
            Register::Tdbah => 20,
            Register::Tdlen => 21,
            Register::Tdh => 22,
            Register::Tdt => 23,
            Register::Ral0 => 24,
            Register::Rah0 => 25,
        }
    }
}

/// The register window of one device: the address at which it is mapped.
/// Every register address is the base plus the register's fixed offset.
#[derive(Clone, Copy, Debug)]
pub struct E1000Registers {
    base: u64,
}

impl E1000Registers {
    #[verifier::type_invariant]
    spec fn inv(&self) -> bool {
        self.base <= u64::MAX - LAST_REGISTER_OFFSET
    }

    pub closed spec fn spec_base(&self) -> u64 {
        self.base
    }

    /// Register window mapped at `mmio_address`.
    pub fn new(mmio_address: u64) -> (r: Self)
        requires
            mmio_address <= u64::MAX - LAST_REGISTER_OFFSET,
        ensures
            r.spec_base() == mmio_address,
    {
        E1000Registers { base: mmio_address }
    }

    pub fn base(&self) -> (r: u64)
        ensures
            r == self.spec_base(),
    {
        self.base
    }

    /// Address of `reg` in the mapped window.
    pub fn address(&self, reg: Register) -> (r: u64)
        ensures
            r == self.spec_base() + reg.spec_offset(),
    {
        proof {
            use_type_invariant(self);
        }
        self.base + reg.offset()
    }
}

/// One 32-bit write of `value` to `register`.
#[derive(Clone, Copy, Debug, PartialEq, Eq, Structural)]
pub struct RegisterWrite {
    pub register: Register,
    pub value: u32,
}

/// The values held by the register window, as software last wrote them.
/// It stands in for the device where no hardware is present (loopback
/// self-test) and lets a sequence of writes be checked by reading back.
pub struct RegisterFile {
    values: [u32; 26],
}

impl RegisterFile {
    /// Value of `reg`.
    pub closed spec fn spec_value(&self, reg: Register) -> u32 {
        self.values@[reg.spec_index() as int]
    }

    /// All registers read zero.
    pub fn new() -> (r: Self)
        ensures
            forall|reg: Register| r.spec_value(reg) == 0,
    {
        RegisterFile { values: [0u32; 26] }
    }

    pub fn read(&self, reg: Register) -> (r: u32)
        ensures
            r == self.spec_value(reg),
    {
        self.values[reg.index()]
    }

    /// Writes `value` to `reg`; every other register keeps its value.
    pub fn write(&mut self, reg: Register, value: u32)
        ensures
            final(self).spec_value(reg) == value,
            forall|other: Register|
                other != reg ==> final(self).spec_value(other) == old(self).spec_value(other),
    {
        let i = reg.index();
        self.values[i] = value;
        proof {
            assert forall|other: Register| other != reg implies other.spec_index() != reg.spec_index() by {
                match other { _ => {} }
            }
        }
    }

    /// Performs the writes in order.
    pub fn apply(&mut self, writes: &Vec<RegisterWrite>)
        ensures
            forall|reg: Register|
                #![trigger final(self).spec_value(reg)]
                final(self).spec_value(reg) == last_written(writes@, reg, old(self).spec_value(reg)),
    {
        let mut i: usize = 0;
        while i < writes.len()
            invariant
                i <= writes@.len(),
                forall|reg: Register|
                    #![trigger self.spec_value(reg)]
                    self.spec_value(reg) == last_written(writes@.take(i as int), reg, old(self).spec_value(reg)),
            decreases writes@.len() - i,
        {
            let w = writes[i];
            self.write(w.register, w.value);
            proof {
                assert(writes@.take(i as int + 1).drop_last() == writes@.take(i as int));
            }
            i = i + 1;
        }
        proof {
            assert(writes@.take(writes@.len() as int) == writes@);
        }
    }
}

/// Value of `reg` after `writes`, starting from `initial`.
pub open spec fn last_written(writes: Seq<RegisterWrite>, reg: Register, initial: u32) -> u32
    decreases writes.len(),
{
    if writes.len() == 0 {
        initial
    } else if writes.last().register == reg {
        writes.last().value
    } else {
        last_written(writes.drop_last(), reg, initial)
    }
}

/// CTRL: device reset; the device clears it when the reset is done.
pub const CTRL_RST: u32 = 0x0400_0000;

impl E1000Registers {
    /// The CTRL write that starts a device reset.
    pub fn reset_command() -> (r: RegisterWrite)
        ensures
            r == (RegisterWrite { register: Register::Ctrl, value: CTRL_RST }),
    {
        RegisterWrite { register: Register::Ctrl, value: CTRL_RST }
    }

    /// Whether the CTRL value shows the reset finished (reset bit clear).
    pub fn reset_complete(ctrl: u32) -> (r: bool)
        ensures
            r == ((ctrl / 0x0400_0000) % 2 == 0),
    {
        let r = ctrl & CTRL_RST == 0;
        assert(r == ((ctrl / 0x0400_0000) % 2 == 0)) by (bit_vector)
            requires
                r == (ctrl & 0x0400_0000u32 == 0),
        ;
        r
    }

    /// The writes after reset that zero the flow-control registers, so
    /// that the device negotiates flow control itself.
    pub fn flow_control_writes() -> (r: Vec<RegisterWrite>)
        ensures
            r@ == seq![
                RegisterWrite { register: Register::Fcal, value: 0 },
                RegisterWrite { register: Register::Fcah, value: 0 },
                RegisterWrite { register: Register::Fct, value: 0 },
                RegisterWrite { register: Register::Fcttv, value: 0 },
            ],
    {
        let mut r: Vec<RegisterWrite> = Vec::new();
        r.push(RegisterWrite { register: Register::Fcal, value: 0 });
        r.push(RegisterWrite { register: Register::Fcah, value: 0 });
        r.push(RegisterWrite { register: Register::Fct, value: 0 });
        r.push(RegisterWrite { register: Register::Fcttv, value: 0 });
        assert(r@ =~= seq![
            RegisterWrite { register: Register::Fcal, value: 0 },
            RegisterWrite { register: Register::Fcah, value: 0 },
            RegisterWrite { register: Register::Fct, value: 0 },
            RegisterWrite { register: Register::Fcttv, value: 0 },
        ]);
        r
    }
}

} // verus!
