//! Typed, named access to the privileged control and status registers of a
//! hart, over the register file held by a [`Machine`].

use vstd::prelude::*;

use crate::machine::Machine;

verus! {

/// Machine-mode interrupt enable, in `mstatus`.
pub const MSTATUS_MIE: u64 = 0x8;

/// Machine software interrupt enable, in `mie`.
pub const MIE_MSIE: u64 = 0x8;

/// Machine timer interrupt enable, in `mie`.
pub const MIE_MTIE: u64 = 0x80;

/// Machine external interrupt enable, in `mie`.
pub const MIE_MEIE: u64 = 0x800;

/// The mode field of `mtvec`; zero selects direct mode.
pub const MTVEC_MODE_MASK: u64 = 0x3;

/// RISC-V control and status registers.
#[derive(Debug, Copy, Clone, PartialEq, Eq, Structural)]
#[allow(non_camel_case_types)]
pub enum Csr {
    MSTATUS,
    MISA,
    MIE,
    MTVEC,
    MEPC,
    MCAUSE,
    MTVAL,
    SATP,
    MVENDORID,
    MARCHID,
    MIMPID,
    MHARTID,
}

/// The values of the control and status registers of one hart.
#[derive(Debug, Copy, Clone, PartialEq, Eq, Structural)]
pub struct CsrFile {
    pub mstatus: u64,
    pub misa: u64,
    pub mie: u64,
    pub mtvec: u64,
    pub mepc: u64,
    pub mcause: u64,
    pub mtval: u64,
    pub satp: u64,
    pub mvendorid: u64,
    pub marchid: u64,
    pub mimpid: u64,
    pub mhartid: u64,
}

impl Csr {
    /// The register's number in the privileged architecture.
    pub open spec fn spec_address(self) -> u32 {
        match self {
            Csr::MSTATUS => 0x300,
            Csr::MISA => 0x301,
            Csr::MIE => 0x304,
            Csr::MTVEC => 0x305,
            Csr::MEPC => 0x341,
            Csr::MCAUSE => 0x342,
            Csr::MTVAL => 0x343,
            Csr::SATP => 0x180,
            Csr::MVENDORID => 0xF11,
            Csr::MARCHID => 0xF12,
            Csr::MIMPID => 0xF13,
            Csr::MHARTID => 0xF14,
        }
    }

    /// Whether the architecture defines the register as read-only: bits
    /// 11 and 10 of its number are both set.
    pub open spec fn spec_read_only(self) -> bool {
        self == Csr::MVENDORID || self == Csr::MARCHID || self == Csr::MIMPID || self
            == Csr::MHARTID
    }

    /// The register's number in the privileged architecture.
    pub fn address(self) -> (r: u32)
        ensures
            r == self.spec_address(),
    {
        match self {
            Csr::MSTATUS => 0x300,
            Csr::MISA => 0x301,
            Csr::MIE => 0x304,
            Csr::MTVEC => 0x305,
            Csr::MEPC => 0x341,
            Csr::MCAUSE => 0x342,
            Csr::MTVAL => 0x343,
            Csr::SATP => 0x180,
            Csr::MVENDORID => 0xF11,
            Csr::MARCHID => 0xF12,
            Csr::MIMPID => 0xF13,
            Csr::MHARTID => 0xF14,
        }
    }

    /// Whether the register is read-only.
    pub fn read_only(self) -> (r: bool)
        ensures
            r == self.spec_read_only(),
            r == (self.spec_address() & 0xC00 == 0xC00),
    {
        assert(0x300u32 & 0xC00 == 0 && 0x301u32 & 0xC00 == 0 && 0x304u32 & 0xC00 == 0 && 0x305u32
            & 0xC00 == 0 && 0x341u32 & 0xC00 == 0 && 0x342u32 & 0xC00 == 0 && 0x343u32 & 0xC00 == 0
            && 0x180u32 & 0xC00 == 0 && 0xF11u32 & 0xC00 == 0xC00 && 0xF12u32 & 0xC00 == 0xC00
            && 0xF13u32 & 0xC00 == 0xC00 && 0xF14u32 & 0xC00 == 0xC00) by (bit_vector);
        match self {
            Csr::MVENDORID | Csr::MARCHID | Csr::MIMPID | Csr::MHARTID => true,
            _ => false,
        }
    }

    /// Read 64 bits csr register.
    pub fn read(self, machine: &Machine) -> (value: u64)
        ensures
            value == machine.csrs.get(self),
    {
        machine.csrs.read(self)
    }

    /// Write 64 bits to csr register.
    ///
    /// The register must be writable; the write is recorded in the
    /// machine's journal.
    pub fn write(self, machine: &mut Machine, value: u64)
        requires
            !self.spec_read_only(),
        ensures
            final(machine)@ == old(machine)@.write_csr(self, value),
    {
        machine.csrs = machine.csrs.write(self, value);
        machine.journal.push(crate::machine::Effect::CsrWrite(self, value));
    }
}

impl CsrFile {
    /// The value held for `csr`.
    pub open spec fn get(self, csr: Csr) -> u64 {
        match csr {
            Csr::MSTATUS => self.mstatus,
            Csr::MISA => self.misa,
            Csr::MIE => self.mie,
            Csr::MTVEC => self.mtvec,
            Csr::MEPC => self.mepc,
            Csr::MCAUSE => self.mcause,
            Csr::MTVAL => self.mtval,
            Csr::SATP => self.satp,
            Csr::MVENDORID => self.mvendorid,
            Csr::MARCHID => self.marchid,
            Csr::MIMPID => self.mimpid,
            Csr::MHARTID => self.mhartid,
        }
    }

    /// The register file with `csr` holding `value` and every other
    /// register as before.
    pub open spec fn set(self, csr: Csr, value: u64) -> CsrFile {
        match csr {
            Csr::MSTATUS => CsrFile { mstatus: value, ..self },
            Csr::MISA => CsrFile { misa: value, ..self },
            Csr::MIE => CsrFile { mie: value, ..self },
            Csr::MTVEC => CsrFile { mtvec: value, ..self },
            Csr::MEPC => CsrFile { mepc: value, ..self },
            Csr::MCAUSE => CsrFile { mcause: value, ..self },
            Csr::MTVAL => CsrFile { mtval: value, ..self },
            Csr::SATP => CsrFile { satp: value, ..self },
            Csr::MVENDORID => CsrFile { mvendorid: value, ..self },
            Csr::MARCHID => CsrFile { marchid: value, ..self },
            Csr::MIMPID => CsrFile { mimpid: value, ..self },
            Csr::MHARTID => CsrFile { mhartid: value, ..self },
        }
    }

    /// The register file of a hart after reset: every register zero but
    /// the hart id and the ISA register.
    pub open spec fn spec_reset(mhartid: u64, misa: u64) -> CsrFile {
        CsrFile {
            mstatus: 0,
            misa,
            mie: 0,
            mtvec: 0,
            mepc: 0,
            mcause: 0,
            mtval: 0,
            satp: 0,
            mvendorid: 0,
            marchid: 0,
            mimpid: 0,
            mhartid,
        }
    }

    /// The register file of a hart after reset.
    pub fn reset(mhartid: u64, misa: u64) -> (r: CsrFile)
        ensures
            r == Self::spec_reset(mhartid, misa),
    {
        CsrFile {
            mstatus: 0,
            misa,
            mie: 0,
            mtvec: 0,
            mepc: 0,
            mcause: 0,
            mtval: 0,
            satp: 0,
            mvendorid: 0,
            marchid: 0,
            mimpid: 0,
            mhartid,
        }
    }

    /// The value held for `csr`.
    pub fn read(&self, csr: Csr) -> (value: u64)
        ensures
            value == self.get(csr),
    {
        match csr {
            Csr::MSTATUS => self.mstatus,
            Csr::MISA => self.misa,
            Csr::MIE => self.mie,
            Csr::MTVEC => self.mtvec,
            Csr::MEPC => self.mepc,
            Csr::MCAUSE => self.mcause,
            Csr::MTVAL => self.mtval,
            Csr::SATP => self.satp,
            Csr::MVENDORID => self.mvendorid,
            Csr::MARCHID => self.marchid,
            Csr::MIMPID => self.mimpid,
            Csr::MHARTID => self.mhartid,
        }
    }

    /// The register file with `csr` replaced by `value`.
    pub fn write(self, csr: Csr, value: u64) -> (r: CsrFile)
        ensures
            r == self.set(csr, value),
    {
        let mut next = self;
        match csr {
            Csr::MSTATUS => next.mstatus = value,
            Csr::MISA => next.misa = value,
            Csr::MIE => next.mie = value,
            Csr::MTVEC => next.mtvec = value,
            Csr::MEPC => next.mepc = value,
            Csr::MCAUSE => next.mcause = value,
            Csr::MTVAL => next.mtval = value,
            Csr::SATP => next.satp = value,
            Csr::MVENDORID => next.mvendorid = value,
            Csr::MARCHID => next.marchid = value,
            Csr::MIMPID => next.mimpid = value,
            Csr::MHARTID => next.mhartid = value,
        }
        next
    }
}

/// Read hart ID from mhartid CSR
pub fn read_hart_id(machine: &Machine) -> (hart_id: u64)
    ensures
        hart_id == machine.csrs.mhartid,
{
    Csr::MHARTID.read(machine)
}

/// Read Machine ISA register
pub fn read_misa(machine: &Machine) -> (misa: u64)
    ensures
        misa == machine.csrs.misa,
{
    Csr::MISA.read(machine)
}

/// Read machine vendor ID
pub fn read_mvendorid(machine: &Machine) -> (vendorid: u64)
    ensures
        vendorid == machine.csrs.mvendorid,
{
    Csr::MVENDORID.read(machine)
}

/// Read machine architecture ID
pub fn read_marchid(machine: &Machine) -> (marchid: u64)
    ensures
        marchid == machine.csrs.marchid,
{
    Csr::MARCHID.read(machine)
}

/// Read machine implementation ID
pub fn read_mimpid(machine: &Machine) -> (mimpid: u64)
    ensures
        mimpid == machine.csrs.mimpid,
{
    Csr::MIMPID.read(machine)
}

/// Read time CSR, the hart's window on the core-local timer's counter
pub fn read_time(machine: &Machine) -> (time: u64)
    ensures
        time == machine.mtime,
{
    machine.mtime
}

/// Read timecmp (mtimecmp) memory-mapped register
pub fn read_timecmp(machine: &Machine) -> (value: u64)
    ensures
        value == machine.mtimecmp,
{
    machine.mtimecmp
}

/// Write timecmp (mtimecmp) memory-mapped register
pub fn write_timecmp(machine: &mut Machine, value: u64)
    ensures
        final(machine)@ == old(machine)@.write_timecmp(value),
{
    machine.mtimecmp = value;
    machine.journal.push(crate::machine::Effect::TimecmpWrite(value));
}

/// Enable machine-mode interrupts (set MIE bit in mstatus)
pub fn enable_m_interrupts(machine: &mut Machine)
    ensures
        final(machine)@ == old(machine)@.write_csr(
            Csr::MSTATUS,
            old(machine).csrs.mstatus | MSTATUS_MIE,
        ),
{
    let mstatus: u64 = Csr::MSTATUS.read(machine);
    Csr::MSTATUS.write(machine, mstatus | MSTATUS_MIE);
}

/// Disable machine-mode interrupts (clear MIE bit in mstatus)
pub fn disable_m_interrupts(machine: &mut Machine)
    ensures
        final(machine)@ == old(machine)@.write_csr(
            Csr::MSTATUS,
            old(machine).csrs.mstatus & !MSTATUS_MIE,
        ),
{
    let mstatus: u64 = Csr::MSTATUS.read(machine);
    Csr::MSTATUS.write(machine, mstatus & !MSTATUS_MIE);
}

/// Enable machine timer interrupt (set MTIE bit in mie)
pub fn enable_timer_interrupt(machine: &mut Machine)
    ensures
        final(machine)@ == old(machine)@.write_csr(Csr::MIE, old(machine).csrs.mie | MIE_MTIE),
{
    let mie: u64 = Csr::MIE.read(machine);
    Csr::MIE.write(machine, mie | MIE_MTIE);
}

/// Disable machine timer interrupt (clear MTIE bit in mie)
pub fn disable_timer_interrupt(machine: &mut Machine)
    ensures
        final(machine)@ == old(machine)@.write_csr(Csr::MIE, old(machine).csrs.mie & !MIE_MTIE),
{
    let mie: u64 = Csr::MIE.read(machine);
    Csr::MIE.write(machine, mie & !MIE_MTIE);
}

/// Write machine trap vector base address
/// MODE is set to Direct (bits[1:0] = 0)
pub fn write_mtvec(machine: &mut Machine, value: u64)
    ensures
        final(machine)@ == old(machine)@.write_csr(Csr::MTVEC, value & !MTVEC_MODE_MASK),
{
    let mtvec_value: u64 = value & !MTVEC_MODE_MASK;
    Csr::MTVEC.write(machine, mtvec_value);
}

/// Read machine trap vector base address
/// Returns only the base address, not the mode
pub fn read_mtvec(machine: &Machine) -> (mtvec: u64)
    ensures
        mtvec == machine.csrs.mtvec & !MTVEC_MODE_MASK,
{
    Csr::MTVEC.read(machine) & !MTVEC_MODE_MASK
}

/// Read machine cause register
pub fn read_mcause(machine: &Machine) -> (mcause: u64)
    ensures
        mcause == machine.csrs.mcause,
{
    Csr::MCAUSE.read(machine)
}

/// Read machine exception program counter
pub fn read_mepc(machine: &Machine) -> (mepc: u64)
    ensures
        mepc == machine.csrs.mepc,
{
    Csr::MEPC.read(machine)
}

/// Write machine exception program counter
pub fn write_mepc(machine: &mut Machine, value: u64)
    ensures
        final(machine)@ == old(machine)@.write_csr(Csr::MEPC, value),
{
    Csr::MEPC.write(machine, value);
}

/// Read machine trap value register
pub fn read_mtval(machine: &Machine) -> (mtval: u64)
    ensures
        mtval == machine.csrs.mtval,
{
    Csr::MTVAL.read(machine)
}

/// Write machine trap value register
pub fn write_mtval(machine: &mut Machine, value: u64)
    ensures
        final(machine)@ == old(machine)@.write_csr(Csr::MTVAL, value),
{
    Csr::MTVAL.write(machine, value);
}

/// A stored register reads back, and no other register is disturbed.
pub proof fn lemma_csr_write_then_read(file: CsrFile, csr: Csr, other: Csr, value: u64)
    ensures
        file.set(csr, value).get(csr) == value,
        other != csr ==> file.set(csr, value).get(other) == file.get(other),
{
}

} // verus!
