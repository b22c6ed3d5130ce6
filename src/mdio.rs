//! Station management (MDIO): clock divider selection, the address/control
//! word, and a register-level model of the MAC's two MII registers and a PHY.
use vstd::prelude::*;

verus! {

/// Clock divider applied to the bus clock to derive the management clock,
/// named by its division factor.
#[derive(Debug, Clone, Copy, PartialEq, Eq, Structural)]
pub enum ClockRange {
    /// Bus clock 25 to 34 MHz.
    Div16,
    /// Bus clock 35 to 59 MHz.
    Div26,
    /// Bus clock 60 to 99 MHz.
    Div42,
    /// Bus clock 100 to 149 MHz.
    Div62,
    /// Bus clock 150 to 216 MHz.
    Div102,
}

/// The bus clock cannot give a management clock within 1 to 2.5 MHz.
#[derive(Debug, Clone, Copy, PartialEq, Eq, Structural)]
pub enum ConfigError {
    /// Below 25 MHz.
    HclkTooLow,
    /// Above 216 MHz.
    HclkTooHigh,
}

/// The divider for a bus clock of `mhz` MHz, as the range table gives it.
pub open spec fn clock_range_for(mhz: int) -> Result<ClockRange, ConfigError> {
    if mhz <= 24 {
        Err(ConfigError::HclkTooLow)
    } else if mhz <= 34 {
        Ok(ClockRange::Div16)
    } else if mhz <= 59 {
        Ok(ClockRange::Div26)
    } else if mhz <= 99 {
        Ok(ClockRange::Div42)
    } else if mhz <= 149 {
        Ok(ClockRange::Div62)
    } else if mhz <= 216 {
        Ok(ClockRange::Div102)
    } else {
        Err(ConfigError::HclkTooHigh)
    }
}

pub open spec fn spec_divider(c: ClockRange) -> int {
    match c {
        ClockRange::Div16 => 16,
        ClockRange::Div26 => 26,
        ClockRange::Div42 => 42,
        ClockRange::Div62 => 62,
        ClockRange::Div102 => 102,
    }
}

/// The three-bit code of a divider in the control word.
pub open spec fn spec_code(c: ClockRange) -> u32 {
    match c {
        ClockRange::Div42 => 0,
        ClockRange::Div62 => 1,
        ClockRange::Div16 => 2,
        ClockRange::Div26 => 3,
        ClockRange::Div102 => 4,
    }
}

impl ClockRange {
    /// The divider for a bus clock of `mhz` MHz.
    pub fn from_hclk_mhz(mhz: u32) -> (r: Result<ClockRange, ConfigError>)
        ensures
            r == clock_range_for(mhz as int),
            r matches Ok(c) ==> mhz >= spec_divider(c) && 2 * mhz <= 5 * spec_divider(c),
    {
        if mhz <= 24 {
            Err(ConfigError::HclkTooLow)
        } else if mhz <= 34 {
            Ok(ClockRange::Div16)
        } else if mhz <= 59 {
            Ok(ClockRange::Div26)
        } else if mhz <= 99 {
            Ok(ClockRange::Div42)
        } else if mhz <= 149 {
            Ok(ClockRange::Div62)
        } else if mhz <= 216 {
            Ok(ClockRange::Div102)
        } else {
            Err(ConfigError::HclkTooHigh)
        }
    }

    /// The divider for a bus clock of `hz` Hz, counted in whole MHz.
    pub fn from_hclk(hz: u32) -> (r: Result<ClockRange, ConfigError>)
        ensures
            r == clock_range_for(hz as int / 1_000_000),
    {
        ClockRange::from_hclk_mhz(hz / 1_000_000)
    }

    /// Division factor from bus clock to management clock.
    pub fn divider(&self) -> (r: u32)
        ensures
            r == spec_divider(*self),
    {
        match self {
            ClockRange::Div16 => 16,
            ClockRange::Div26 => 26,
            ClockRange::Div42 => 42,
            ClockRange::Div62 => 62,
            ClockRange::Div102 => 102,
        }
    }

    /// Code of the divider in the control word.
    pub fn code(&self) -> (r: u32)
        ensures
            r == spec_code(*self),
            r < 8,
    {
        match self {
            ClockRange::Div42 => 0,
            ClockRange::Div62 => 1,
            ClockRange::Div16 => 2,
            ClockRange::Div26 => 3,
            ClockRange::Div102 => 4,
        }
    }
}

/// Direction of a management transaction.
#[derive(Debug, Clone, Copy, PartialEq, Eq, Structural)]
pub enum MdioOp {
    Read,
    Write,
}

/// Position of the PHY address field (five bits) in the control word.
pub const PHY_ADDR_SHIFT: u32 = 11;
/// Position of the register number field (five bits).
pub const REG_SHIFT: u32 = 6;
/// Position of the divider code field (three bits).
pub const CLOCK_SHIFT: u32 = 2;
/// The operation bit: set for a write.
pub const WRITE_BIT: u32 = 2;
/// The busy bit: set by software to start, cleared by hardware when done.
pub const BUSY_BIT: u32 = 1;

/// The control word that starts a transaction: PHY address in bits 15..11,
/// register in 10..6, divider code in 4..2, operation in bit 1, busy in bit 0.
pub open spec fn control_word(phy_addr: u8, reg: u8, op: MdioOp, c: ClockRange) -> u32 {
    ((phy_addr % 32) * 2048 + (reg % 32) * 64 + spec_code(c) * 4 + (if op == MdioOp::Write {
        2int
    } else {
        0int
    }) + 1) as u32
}

/// Builds the control word for `op` on register `reg` of the PHY at `phy_addr`;
/// each number keeps its low bits that fit its field.
pub fn command_word(phy_addr: u8, reg: u8, op: MdioOp, c: ClockRange) -> (r: u32)
    ensures
        r == control_word(phy_addr, reg, op, c),
{
    let pa = (phy_addr & 0x1f) as u32;
    let mr = (reg & 0x1f) as u32;
    let cr = c.code();
    let w: u32 = match op {
        MdioOp::Read => 0,
        MdioOp::Write => WRITE_BIT,
    };
    assert(phy_addr & 0x1f == phy_addr % 32) by (bit_vector);
    assert(reg & 0x1f == reg % 32) by (bit_vector);
    assert(pa << 11 == pa * 2048 && mr << 6 == mr * 64 && cr << 2 == cr * 4) by (bit_vector)
        requires pa < 32, mr < 32, cr < 8;
    let r = (pa << PHY_ADDR_SHIFT) | (mr << REG_SHIFT) | (cr << CLOCK_SHIFT) | w | BUSY_BIT;
    assert(((pa << 11) | (mr << 6) | (cr << 2) | w | 1) == (pa << 11) + (mr << 6) + (cr << 2) + w + 1) by (bit_vector)
        requires pa < 32, mr < 32, cr < 8, w == 0 || w == 2;
    r
}

/// Whether a control word still shows a transaction in progress.
pub fn is_busy(word: u32) -> (r: bool)
    ensures
        r == (word % 2 == 1),
{
    assert((word & 1 == 1) == (word % 2 == 1)) by (bit_vector);
    word & BUSY_BIT == BUSY_BIT
}

/// The control word of a transaction holds exactly its PHY address, register,
/// operation, divider code and a set busy bit, each in its own field.
pub proof fn lemma_control_word_fields(phy_addr: u8, reg: u8, op: MdioOp, c: ClockRange)
    ensures
        (control_word(phy_addr, reg, op, c) / 2048) % 32 == phy_addr % 32,
        (control_word(phy_addr, reg, op, c) / 64) % 32 == reg % 32,
        (control_word(phy_addr, reg, op, c) / 32) % 2 == 0,
        (control_word(phy_addr, reg, op, c) / 4) % 8 == spec_code(c),
        (control_word(phy_addr, reg, op, c) / 2) % 2 == (if op == MdioOp::Write { 1int } else { 0int }),
        control_word(phy_addr, reg, op, c) % 2 == 1,
        control_word(phy_addr, reg, op, c) < 65536,
{
    let a = (phy_addr % 32) as u32;
    let b = (reg % 32) as u32;
    let k = spec_code(c);
    let o: u32 = if op == MdioOp::Write { 2 } else { 0 };
    let w: u32 = (a * 2048 + b * 64 + k * 4 + o + 1) as u32;
    assert(((a << 11) | (b << 6) | (k << 2) | o | 1) == a * 2048 + b * 64 + k * 4 + o + 1) by (bit_vector)
        requires
            a < 32,
            b < 32,
            k < 8,
            o == 0 || o == 2,
    ;
    assert(w / 2048 % 32 == a && w / 64 % 32 == b && w / 32 % 2 == 0 && w / 4 % 8 == k && w / 2 % 2
        == o / 2 && w % 2 == 1 && w < 65536) by (bit_vector)
        requires
            a < 32,
            b < 32,
            k < 8,
            o == 0 || o == 2,
            w == ((a << 11) | (b << 6) | (k << 2) | o | 1),
    ;
    assert(control_word(phy_addr, reg, op, c) == w);
}

/// Most status polls a transaction may take before it is abandoned.
pub const MDIO_POLL_LIMIT: u32 = 100_000;

/// Number of registers a PHY exposes.
pub const PHY_REGISTERS: usize = 32;

/// The busy bit never cleared: the PHY did not answer.
#[derive(Debug, Clone, Copy, PartialEq, Eq, Structural)]
pub enum MdioError {
    Timeout,
}

/// The driver's side of the management bus: whom it talks to, and how fast.
#[derive(Debug, Clone, Copy, PartialEq, Eq, Structural)]
pub struct Station {
    pub phy_addr: u8,
    pub clock: ClockRange,
}

impl Station {
    /// Control word that starts `op` on register `reg`.
    pub fn command(&self, reg: u8, op: MdioOp) -> (r: u32)
        ensures
            r == control_word(self.phy_addr, reg, op, self.clock),
    {
        command_word(self.phy_addr, reg, op, self.clock)
    }
}

/// The MAC's MII address/control and data registers with one PHY behind them.
/// A control word with the busy bit set runs at once: it reads a PHY register
/// into the data register or writes the data register into it, then clears
/// the busy bit. A transaction for another address finds no PHY: a read gives
/// all ones and a write is lost.
pub struct SimulatedMii {
    phy_addr: u8,
    address: u32,
    data: u16,
    regs: Vec<u16>,
    commands: Vec<u32>,
}

impl SimulatedMii {
    pub closed spec fn wf(&self) -> bool {
        &&& self.regs@.len() == PHY_REGISTERS
        &&& self.address % 2 == 0
    }

    /// The PHY's registers.
    pub closed spec fn view(&self) -> Seq<u16> {
        self.regs@
    }

    /// Every control word written so far, oldest first.
    pub closed spec fn spec_commands(&self) -> Seq<u32> {
        self.commands@
    }

    pub closed spec fn spec_phy_addr(&self) -> u8 {
        self.phy_addr
    }

    /// The data register.
    pub closed spec fn spec_data(&self) -> u16 {
        self.data
    }

    /// The address/control register.
    pub closed spec fn spec_address(&self) -> u32 {
        self.address
    }

    /// A PHY at `phy_addr` with every register zero.
    pub fn new(phy_addr: u8) -> (r: SimulatedMii)
        ensures
            r.wf(),
            r@ == Seq::new(PHY_REGISTERS as nat, |i: int| 0u16),
            r.spec_commands() == Seq::<u32>::empty(),
            r.spec_phy_addr() == phy_addr,
    {
        let mut regs: Vec<u16> = Vec::new();
        let mut i: usize = 0;
        while i < PHY_REGISTERS
            invariant
                i <= PHY_REGISTERS,
                regs@ == Seq::new(i as nat, |j: int| 0u16),
            decreases PHY_REGISTERS - i,
        {
            regs.push(0);
            i += 1;
            assert(regs@ =~= Seq::new(i as nat, |j: int| 0u16));
        }
        SimulatedMii { phy_addr, address: 0, data: 0, regs, commands: Vec::new() }
    }

    /// The PHY's address on the bus.
    pub fn phy_addr(&self) -> (r: u8)
        ensures
            r == self.spec_phy_addr(),
    {
        self.phy_addr
    }

    /// Every control word written so far, oldest first.
    pub fn commands(&self) -> (r: &Vec<u32>)
        ensures
            r@ == self.spec_commands(),
    {
        &self.commands
    }

    /// Writes the data register.
    pub fn write_data(&mut self, v: u16)
        requires
            old(self).wf(),
        ensures
            final(self).wf(),
            final(self)@ == old(self)@,
            final(self).spec_commands() == old(self).spec_commands(),
            final(self).spec_phy_addr() == old(self).spec_phy_addr(),
            final(self).spec_data() == v,
    {
        self.data = v;
    }

    /// Reads the data register.
    pub fn read_data(&self) -> (r: u16)
        ensures
            r == self.spec_data(),
    {
        self.data
    }

    /// Reads the address/control register.
    pub fn read_address(&self) -> (r: u32)
        ensures
            r == self.spec_address(),
    {
        self.address
    }

    /// Writes the address/control register; with the busy bit set the
    /// transaction it describes runs and the busy bit clears.
    pub fn write_address(&mut self, word: u32)
        requires
            old(self).wf(),
        ensures
            final(self).wf(),
            final(self).spec_phy_addr() == old(self).spec_phy_addr(),
            final(self).spec_commands() == old(self).spec_commands().push(word),
            word % 2 == 1 && (word / 2048) % 32 == old(self).spec_phy_addr() && (word / 2) % 2 == 1
                ==> final(self)@ == old(self)@.update(((word / 64) % 32) as int, old(self).spec_data()),
            !(word % 2 == 1 && (word / 2048) % 32 == old(self).spec_phy_addr() && (word / 2) % 2 == 1)
                ==> final(self)@ == old(self)@,
            word % 2 == 1 && (word / 2) % 2 == 0 ==> final(self).spec_data() == (if (word / 2048) % 32
                == old(self).spec_phy_addr() {
                old(self)@[((word / 64) % 32) as int]
            } else {
                0xffffu16
            }),
    {
        self.commands.push(word);
        assert((word & 1 == 1) == (word % 2 == 1)) by (bit_vector);
        assert(((word >> 11) & 0x1f) == (word / 2048) % 32) by (bit_vector);
        assert(((word >> 6) & 0x1f) == (word / 64) % 32) by (bit_vector);
        assert(((word >> 1) & 1) == (word / 2) % 2) by (bit_vector);
        assert((word & 0xffff_fffe) % 2 == 0) by (bit_vector);
        if word & 1 == 1 {
            let pa = (word >> 11) & 0x1f;
            let mr = ((word >> 6) & 0x1f) as usize;
            let write = (word >> 1) & 1 == 1;
            if write {
                if pa == self.phy_addr as u32 {
                    self.regs.set(mr, self.data);
                }
            } else {
                if pa == self.phy_addr as u32 {
                    self.data = self.regs[mr];
                } else {
                    self.data = 0xffff;
                }
            }
        }
        self.address = word & 0xffff_fffe;
    }

    /// Reads register `reg` of the PHY that `st` addresses: writes the control
    /// word, polls until the busy bit clears, reads the data register.
    pub fn smi_read(&mut self, st: &Station, reg: u8) -> (r: Result<u16, MdioError>)
        requires
            old(self).wf(),
        ensures
            final(self).wf(),
            final(self)@ == old(self)@,
            final(self).spec_phy_addr() == old(self).spec_phy_addr(),
            final(self).spec_commands() == old(self).spec_commands().push(
                control_word(st.phy_addr, reg, MdioOp::Read, st.clock),
            ),
            r == Ok::<u16, MdioError>(if st.phy_addr % 32 == old(self).spec_phy_addr() {
                old(self)@[(reg % 32) as int]
            } else {
                0xffffu16
            }),
    {
        let word = st.command(reg, MdioOp::Read);
        proof {
            lemma_control_word_fields(st.phy_addr, reg, MdioOp::Read, st.clock);
        }
        self.write_address(word);
        self.wait_idle()?;
        Ok(self.read_data())
    }

    /// Writes `val` to register `reg` of the PHY that `st` addresses: writes
    /// the data register, then the control word, and polls until the busy
    /// bit clears.
    pub fn smi_write(&mut self, st: &Station, reg: u8, val: u16) -> (r: Result<(), MdioError>)
        requires
            old(self).wf(),
        ensures
            final(self).wf(),
            r is Ok,
            final(self).spec_phy_addr() == old(self).spec_phy_addr(),
            final(self).spec_commands() == old(self).spec_commands().push(
                control_word(st.phy_addr, reg, MdioOp::Write, st.clock),
            ),
            final(self)@ == (if st.phy_addr % 32 == old(self).spec_phy_addr() {
                old(self)@.update((reg % 32) as int, val)
            } else {
                old(self)@
            }),
    {
        self.write_data(val);
        let word = st.command(reg, MdioOp::Write);
        proof {
            lemma_control_word_fields(st.phy_addr, reg, MdioOp::Write, st.clock);
        }
        self.write_address(word);
        self.wait_idle()
    }

    /// Polls the busy bit, at most `MDIO_POLL_LIMIT` times.
    fn wait_idle(&self) -> (r: Result<(), MdioError>)
        requires
            self.wf(),
        ensures
            r is Ok,
    {
        let mut polls: u32 = 0;
        while is_busy(self.read_address())
            invariant
                self.wf(),
                polls <= MDIO_POLL_LIMIT,
            decreases MDIO_POLL_LIMIT - polls,
        {
            if polls == MDIO_POLL_LIMIT {
                return Err(MdioError::Timeout);
            }
            polls += 1;
        }
        Ok(())
    }
}

/// Writing a value to a PHY register and reading that register back gives
/// the value: the register file after the write holds it there.
pub proof fn lemma_write_then_read(regs: Seq<u16>, reg: u8, val: u16)
    requires
        regs.len() == PHY_REGISTERS,
    ensures
        regs.update((reg % 32) as int, val)[(reg % 32) as int] == val,
        regs.update((reg % 32) as int, val).len() == PHY_REGISTERS,
{
}

} // verus!
