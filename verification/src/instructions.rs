//! Interrupt control and system registers of the hart, by instruction.

use vstd::prelude::*;

use crate::csr::{Csr, MIE_MEIE, MIE_MSIE, MIE_MTIE, MSTATUS_MIE};
use crate::machine::{Effect, Machine};

verus! {

/// Enable interrupts (set MIE bit in mstatus)
pub fn enable_irqs(machine: &mut Machine)
    ensures
        final(machine)@ == old(machine)@.write_csr(
            Csr::MSTATUS,
            old(machine).csrs.mstatus | MSTATUS_MIE,
        ),
{
    let mstatus: u64 = read_mstatus(machine);
    write_mstatus(machine, mstatus | MSTATUS_MIE);
}

/// Disable interrupts (clear MIE bit in mstatus)
pub fn disable_irqs(machine: &mut Machine)
    ensures
        final(machine)@ == old(machine)@.write_csr(
            Csr::MSTATUS,
            old(machine).csrs.mstatus & !MSTATUS_MIE,
        ),
{
    let mstatus: u64 = read_mstatus(machine);
    write_mstatus(machine, mstatus & !MSTATUS_MIE);
}

/// Check if interrupts are disabled
pub fn irqs_disabled(machine: &Machine) -> (r: bool)
    ensures
        r == (machine.csrs.mstatus & MSTATUS_MIE == 0),
{
    let mstatus: u64 = read_mstatus(machine);
    (mstatus & MSTATUS_MIE) == 0
}

/// Wait for interrupts using WFI instruction: the hart waits when
/// interrupts are enabled, and goes on at once when they are not.
pub fn wait_for_ints(machine: &mut Machine)
    ensures
        final(machine)@ == if old(machine).csrs.mstatus & MSTATUS_MIE == 0 {
            old(machine)@
        } else {
            old(machine)@.record(Effect::WaitForInterrupt)
        },
{
    if !irqs_disabled(machine) {
        machine.record(Effect::WaitForInterrupt);
    }
}

/// Enable machine software interrupt
pub fn enable_msie(machine: &mut Machine)
    ensures
        final(machine)@ == old(machine)@.write_csr(Csr::MIE, old(machine).csrs.mie | MIE_MSIE),
{
    let mie: u64 = read_mie(machine);
    write_mie(machine, mie | MIE_MSIE);
}

/// Enable machine timer interrupt
pub fn enable_mtie(machine: &mut Machine)
    ensures
        final(machine)@ == old(machine)@.write_csr(Csr::MIE, old(machine).csrs.mie | MIE_MTIE),
{
    let mie: u64 = read_mie(machine);
    write_mie(machine, mie | MIE_MTIE);
}

/// Enable machine external interrupt
pub fn enable_meie(machine: &mut Machine)
    ensures
        final(machine)@ == old(machine)@.write_csr(Csr::MIE, old(machine).csrs.mie | MIE_MEIE),
{
    let mie: u64 = read_mie(machine);
    write_mie(machine, mie | MIE_MEIE);
}

/// Disable machine software interrupt
pub fn disable_msie(machine: &mut Machine)
    ensures
        final(machine)@ == old(machine)@.write_csr(Csr::MIE, old(machine).csrs.mie & !MIE_MSIE),
{
    let mie: u64 = read_mie(machine);
    write_mie(machine, mie & !MIE_MSIE);
}

/// Disable machine timer interrupt
pub fn disable_mtie(machine: &mut Machine)
    ensures
        final(machine)@ == old(machine)@.write_csr(Csr::MIE, old(machine).csrs.mie & !MIE_MTIE),
{
    let mie: u64 = read_mie(machine);
    write_mie(machine, mie & !MIE_MTIE);
}

/// Disable machine external interrupt
pub fn disable_meie(machine: &mut Machine)
    ensures
        final(machine)@ == old(machine)@.write_csr(Csr::MIE, old(machine).csrs.mie & !MIE_MEIE),
{
    let mie: u64 = read_mie(machine);
    write_mie(machine, mie & !MIE_MEIE);
}

/// Read machine status register
pub fn read_mstatus(machine: &Machine) -> (mstatus: u64)
    ensures
        mstatus == machine.csrs.mstatus,
{
    Csr::MSTATUS.read(machine)
}

/// Write machine status register
pub fn write_mstatus(machine: &mut Machine, value: u64)
    ensures
        final(machine)@ == old(machine)@.write_csr(Csr::MSTATUS, value),
{
    Csr::MSTATUS.write(machine, value);
}

/// Read machine cause register
pub fn read_mcause(machine: &Machine) -> (mcause: u64)
    ensures
        mcause == machine.csrs.mcause,
{
    Csr::MCAUSE.read(machine)
}

/// Read machine trap value register
pub fn read_mtval(machine: &Machine) -> (mtval: u64)
    ensures
        mtval == machine.csrs.mtval,
{
    Csr::MTVAL.read(machine)
}

/// Read machine trap program counter
pub fn read_mepc(machine: &Machine) -> (mepc: u64)
    ensures
        mepc == machine.csrs.mepc,
{
    Csr::MEPC.read(machine)
}

/// Read machine interrupt enable register
pub fn read_mie(machine: &Machine) -> (mie: u64)
    ensures
        mie == machine.csrs.mie,
{
    Csr::MIE.read(machine)
}

/// Write machine interrupt enable register
pub fn write_mie(machine: &mut Machine, value: u64)
    ensures
        final(machine)@ == old(machine)@.write_csr(Csr::MIE, value),
{
    Csr::MIE.write(machine, value);
}

/// Read hart ID
pub fn read_hart_id(machine: &Machine) -> (hart_id: u64)
    ensures
        hart_id == machine.csrs.mhartid,
{
    Csr::MHARTID.read(machine)
}

} // verus!
