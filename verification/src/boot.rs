//! Bring-up of a hart: the console, the trap vector and the first tick, and
//! the hand-over from machine mode to the hypervisor.

use vstd::prelude::*;

use crate::csr::Csr;
use crate::firmware;
use crate::machine::{Effect, Machine, MachineView};
use crate::timer;
use crate::trap;
use crate::uart;

verus! {

/// Address at which the hypervisor is entered.
pub const HYPERVISOR_ENTRY: u64 = 0x8002_0000;

/// `mstatus` for the hand-over: previous privilege HS-mode, machine
/// interrupts off.
pub const MSTATUS_ENTER_HS: u64 = 0x0000_0000_0000_0800;

/// The machine after early bring-up: the console is set up.
pub open spec fn spec_init_early(machine: MachineView) -> MachineView {
    MachineView {
        journal: machine.journal + uart::init_sequence(uart::UART_BASE, uart::CONSOLE_BAUD_RATE),
        ..machine
    }
}

/// The machine after bring-up: the trap vector is installed at `handler`,
/// and the first tick is scheduled.
pub open spec fn spec_init(machine: MachineView, handler: u64) -> MachineView {
    timer::spec_schedule_tick(trap::spec_init(machine, handler))
}

/// The machine after the hand-over to HS-mode: the entry address is in the
/// exception program counter, the previous privilege is HS-mode with
/// interrupts off, paging is off, and the hart has left machine mode.
pub open spec fn spec_switch_to_hs_mode(machine: MachineView) -> MachineView {
    machine.write_csr(Csr::MEPC, HYPERVISOR_ENTRY).write_csr(
        Csr::MSTATUS,
        MSTATUS_ENTER_HS,
    ).write_csr(Csr::SATP, 0).record(Effect::MachineReturn)
}

/// Early bring-up: sets up the console.
pub fn init_early(machine: &mut Machine)
    ensures
        final(machine)@ == spec_init_early(old(machine)@),
{
    uart::init(machine);
}

/// Bring-up: installs the trap vector at `handler` and schedules the first
/// tick.
pub fn init(machine: &mut Machine, handler: u64)
    ensures
        final(machine)@ == spec_init(old(machine)@, handler),
{
    trap::init(machine, handler);
    timer::init(machine);
}

/// Switch to HS-mode
pub fn switch_to_hs_mode_simple(machine: &mut Machine)
    ensures
        final(machine)@ == spec_switch_to_hs_mode(old(machine)@),
{
    // Set hypervisor entry address
    Csr::MEPC.write(machine, HYPERVISOR_ENTRY);

    // Configure mstatus register
    // MPP = 01 (HS-mode), MIE = 0
    let mstatus_value: u64 = 0x0000_0000_0000_0800;
    Csr::MSTATUS.write(machine, mstatus_value);

    // Disable paging
    Csr::SATP.write(machine, 0);

    // Execute switching
    machine.record(Effect::MachineReturn);
}

/// The machine after the firmware's entry ran: the trap vector is installed
/// and machine interrupts are on, and the hart is then handed over to
/// HS-mode.
pub open spec fn spec_start(machine: MachineView, trap_entry: u64) -> MachineView {
    spec_switch_to_hs_mode(firmware::spec_init(machine, trap_entry))
}

/// Entry of the firmware: installs the trap vector at `trap_entry`,
/// switches machine interrupts on, and hands over to HS-mode. Nothing but
/// the vector and the status register is written before the hand-over.
pub fn start_rust(machine: &mut Machine, trap_entry: u64)
    ensures
        final(machine)@ == spec_start(old(machine)@, trap_entry),
{
    // Initialize trap handler
    firmware::init(machine, trap_entry);

    switch_to_hs_mode_simple(machine);
}

/// The firmware's entry writes, in this order and nothing else: the trap
/// vector, the status register with machine interrupts on, the entry
/// address, the status register for the hand-over, and the paging register;
/// then the hart leaves machine mode. The interrupt enables are untouched.
pub proof fn lemma_start_sequence(machine: MachineView, trap_entry: u64)
    ensures
        spec_start(machine, trap_entry).journal == machine.journal + seq![
            Effect::CsrWrite(Csr::MTVEC, trap_entry & !crate::csr::MTVEC_MODE_MASK),
            Effect::CsrWrite(Csr::MSTATUS, machine.csrs.mstatus | crate::csr::MSTATUS_MIE),
            Effect::CsrWrite(Csr::MEPC, HYPERVISOR_ENTRY),
            Effect::CsrWrite(Csr::MSTATUS, MSTATUS_ENTER_HS),
            Effect::CsrWrite(Csr::SATP, 0),
            Effect::MachineReturn,
        ],
        spec_start(machine, trap_entry).csrs.mie == machine.csrs.mie,
        spec_start(machine, trap_entry).mtimecmp == machine.mtimecmp,
{
    assert(spec_start(machine, trap_entry).journal =~= machine.journal + seq![
        Effect::CsrWrite(Csr::MTVEC, trap_entry & !crate::csr::MTVEC_MODE_MASK),
        Effect::CsrWrite(Csr::MSTATUS, machine.csrs.mstatus | crate::csr::MSTATUS_MIE),
        Effect::CsrWrite(Csr::MEPC, HYPERVISOR_ENTRY),
        Effect::CsrWrite(Csr::MSTATUS, MSTATUS_ENTER_HS),
        Effect::CsrWrite(Csr::SATP, 0),
        Effect::MachineReturn,
    ]);
}

} // verus!
