//! The firmware's trap path: its vector, its entry, and its handling of
//! machine interrupts, among them the timer interrupt that keeps itself
//! going.

use vstd::prelude::*;

use crate::csr;
use crate::csr::{Csr, MIE_MTIE, MSTATUS_MIE, MTVEC_MODE_MASK};
use crate::machine::{Effect, Machine, MachineView};
use crate::timer::wrapping_sum;
use crate::trap;
use crate::trap::{
    spec_decode, spec_ecall_machine, spec_outcome, spec_route, spec_trap_frame, CauseCode,
    TrapFrame, TrapHandler, TrapOutcome, INTERRUPT_M_TIMER,
};

verus! {

/// Clock cycles from one machine timer interrupt to the next.
pub const TIMER_PERIOD: u64 = 10_000_000;

/// The machine after the trap vector was installed at `trap_entry`: the
/// vector written in direct mode, then machine interrupts switched on.
pub open spec fn spec_init(machine: MachineView, trap_entry: u64) -> MachineView {
    let vectored = machine.write_csr(Csr::MTVEC, trap_entry & !MTVEC_MODE_MASK);
    vectored.write_csr(Csr::MSTATUS, vectored.csrs.mstatus | MSTATUS_MIE)
}

/// The comparator that a timer interrupt at time `now` leaves: one period
/// later, in 64 bits.
pub open spec fn next_timer(now: u64) -> u64 {
    wrapping_sum(now, TIMER_PERIOD)
}

/// The machine after a machine timer interrupt was handled: the timer
/// interrupt is masked, the comparator is set one period after the current
/// time, and the interrupt is unmasked.
pub open spec fn spec_timer_interrupt(machine: MachineView) -> MachineView {
    let masked = machine.write_csr(Csr::MIE, machine.csrs.mie & !MIE_MTIE);
    let programmed = masked.write_timecmp(next_timer(masked.mtime));
    programmed.write_csr(Csr::MIE, programmed.csrs.mie | MIE_MTIE)
}

/// The machine after the interrupt with code `cause` was handled.
pub open spec fn spec_interrupt(cause: u64, machine: MachineView) -> MachineView {
    if cause == INTERRUPT_M_TIMER {
        spec_timer_interrupt(machine)
    } else {
        machine
    }
}

/// The machine after the trap that its cause register shows was handled.
pub open spec fn spec_trap_machine(frame: TrapFrame, machine: MachineView) -> MachineView {
    match spec_route(spec_decode(machine.csrs.mcause)) {
        TrapHandler::MachineTimer => spec_timer_interrupt(machine),
        TrapHandler::EcallFromMachine => spec_ecall_machine(frame, machine, machine.csrs.mepc),
        _ => machine,
    }
}

/// Installs the trap vector at `trap_entry`, in direct mode, and switches
/// machine interrupts on.
pub fn init(machine: &mut Machine, trap_entry: u64)
    ensures
        final(machine)@ == spec_init(old(machine)@, trap_entry),
{
    csr::write_mtvec(machine, trap_entry);
    csr::enable_m_interrupts(machine);
}

/// Handles the trap that the machine's cause register shows, on the
/// registers saved at trap entry. Only a call from machine mode changes the
/// saved registers, and of those only `a0` and `a1`.
pub fn trap_handler(frame: &mut TrapFrame, machine: &mut Machine) -> (r: TrapOutcome)
    ensures
        r == spec_outcome(spec_route(spec_decode(old(machine).csrs.mcause))),
        *final(frame) == spec_trap_frame(*old(frame), old(machine)@),
        final(machine)@ == spec_trap_machine(*old(frame), old(machine)@),
{
    let mcause: u64 = csr::read_mcause(machine);
    let mepc: u64 = csr::read_mepc(machine);
    let mtval: u64 = csr::read_mtval(machine);

    match trap::decode(mcause) {
        CauseCode::Interrupt(cause_code) => handle_interrupt(cause_code, machine),
        CauseCode::Exception(cause_code) => trap::handle_exception(
            cause_code,
            mepc,
            mtval,
            frame,
            machine,
        ),
    }
}

/// Handles the interrupt with code `cause`: the machine timer interrupt
/// sets the next one up; every other interrupt changes nothing.
pub fn handle_interrupt(cause: u64, machine: &mut Machine) -> (r: TrapOutcome)
    ensures
        r == TrapOutcome::Resume,
        final(machine)@ == spec_interrupt(cause, old(machine)@),
{
    match trap::route(CauseCode::Interrupt(cause)) {
        TrapHandler::MachineSoftware => handle_m_software_interrupt(),
        TrapHandler::MachineTimer => handle_m_timer_interrupt(machine),
        TrapHandler::MachineExternal => handle_m_external_interrupt(),
        _ => TrapOutcome::Resume,
    }
}

/// Handles the machine timer interrupt: with the timer interrupt masked,
/// sets the comparator one period after the current time, and unmasks the
/// interrupt again.
pub fn handle_m_timer_interrupt(machine: &mut Machine) -> (r: TrapOutcome)
    ensures
        r == TrapOutcome::Resume,
        final(machine)@ == spec_timer_interrupt(old(machine)@),
        final(machine).mtimecmp == wrapping_sum(old(machine).mtime, 10_000_000),
        final(machine).csrs == old(machine).csrs.set(Csr::MIE, old(machine).csrs.mie | MIE_MTIE),
{
    csr::disable_timer_interrupt(machine);

    // Set next timer interrupt
    let time: u64 = csr::read_time(machine);
    let next_time: u64 = time.wrapping_add(10_000_000);
    csr::write_timecmp(machine, next_time);

    csr::enable_timer_interrupt(machine);
    proof {
        lemma_timer_interrupt_order(old(machine)@);
    }
    TrapOutcome::Resume
}

/// Handles the machine external interrupt: nothing is wired to it.
pub fn handle_m_external_interrupt() -> (r: TrapOutcome)
    ensures
        r == TrapOutcome::Resume,
{
    TrapOutcome::Resume
}

/// Handles the machine software interrupt: nothing is wired to it.
pub fn handle_m_software_interrupt() -> (r: TrapOutcome)
    ensures
        r == TrapOutcome::Resume,
{
    TrapOutcome::Resume
}

/// Handling a machine timer interrupt writes, in this order and nothing
/// else: the interrupt enables with the timer masked, the comparator, and
/// the interrupt enables with the timer unmasked. The comparator then holds
/// the time plus one period, and every enable bit but the timer's is as it
/// was.
pub proof fn lemma_timer_interrupt_order(machine: MachineView)
    ensures
        spec_timer_interrupt(machine).journal == machine.journal + seq![
            Effect::CsrWrite(Csr::MIE, machine.csrs.mie & !MIE_MTIE),
            Effect::TimecmpWrite(next_timer(machine.mtime)),
            Effect::CsrWrite(Csr::MIE, machine.csrs.mie | MIE_MTIE),
        ],
        spec_timer_interrupt(machine).mtimecmp == next_timer(machine.mtime),
        spec_timer_interrupt(machine).csrs == machine.csrs.set(
            Csr::MIE,
            machine.csrs.mie | MIE_MTIE,
        ),
        spec_timer_interrupt(machine).csrs.mie & MIE_MTIE == MIE_MTIE,
        spec_timer_interrupt(machine).mtime == machine.mtime,
        spec_timer_interrupt(machine).serial == machine.serial,
        spec_timer_interrupt(machine).frames == machine.frames,
{
    let mie = machine.csrs.mie;
    assert((mie & !MIE_MTIE) | MIE_MTIE == mie | MIE_MTIE) by (bit_vector);
    assert((mie | MIE_MTIE) & MIE_MTIE == MIE_MTIE) by (bit_vector);
    assert(spec_timer_interrupt(machine).journal =~= machine.journal + seq![
        Effect::CsrWrite(Csr::MIE, machine.csrs.mie & !MIE_MTIE),
        Effect::TimecmpWrite(next_timer(machine.mtime)),
        Effect::CsrWrite(Csr::MIE, machine.csrs.mie | MIE_MTIE),
    ]);
}

/// While the sum fits 64 bits, the comparator that a timer interrupt leaves
/// lies one period after the current time, and so strictly after a deadline
/// that has been reached.
pub proof fn lemma_timer_interrupt_after_deadline(machine: MachineView, deadline: u64)
    requires
        machine.mtime >= deadline,
        machine.mtime + TIMER_PERIOD <= u64::MAX,
    ensures
        spec_timer_interrupt(machine).mtimecmp == machine.mtime + 10_000_000,
        spec_timer_interrupt(machine).mtimecmp > deadline,
{
    lemma_timer_interrupt_order(machine);
}

/// No trap touches the machine status register, the timer's counter, the
/// serial port or the frame pool, and no trap but a call from machine mode
/// changes a saved register: the handler runs with interrupts as the trap
/// left them, and what it journals comes after what was journalled before.
pub proof fn lemma_trap_leaves_status(frame: TrapFrame, machine: MachineView)
    ensures
        spec_trap_machine(frame, machine).csrs.mstatus == machine.csrs.mstatus,
        spec_trap_machine(frame, machine).mtime == machine.mtime,
        spec_trap_machine(frame, machine).serial == machine.serial,
        spec_trap_machine(frame, machine).frames == machine.frames,
        machine.journal.is_prefix_of(spec_trap_machine(frame, machine).journal),
        spec_route(spec_decode(machine.csrs.mcause)) != TrapHandler::EcallFromMachine
            ==> spec_trap_frame(frame, machine) == frame,
{
    lemma_timer_interrupt_order(machine);
    let context = frame.spec_sbi_context();
    crate::sbi::timer::lemma_set_timer_reads_back(machine, context.a0);
    let after_call = crate::sbi::sbi_effect(context, machine);
    assert(machine.journal.is_prefix_of(after_call.journal));
    assert(after_call.journal.is_prefix_of(
        spec_ecall_machine(frame, machine, machine.csrs.mepc).journal,
    ));
}

} // verus!
