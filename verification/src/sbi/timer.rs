//! The timer extension: programming the comparator of the core-local timer.

use vstd::prelude::*;

use crate::csr;
use crate::csr::{Csr, MIE_MTIE};
use crate::machine::{Machine, MachineView};
use crate::sbi::{SbiError, SbiFunction, SbiResult};
use crate::trap::SbiContext;

verus! {

/// The machine after the timer was set to `time`: the timer interrupt is
/// masked, then the comparator is written, then the interrupt is unmasked.
pub open spec fn spec_set_timer(machine: MachineView, time: u64) -> MachineView {
    let masked = machine.write_csr(Csr::MIE, machine.csrs.mie & !MIE_MTIE);
    let programmed = masked.write_timecmp(time);
    programmed.write_csr(Csr::MIE, programmed.csrs.mie | MIE_MTIE)
}

/// What the timer extension answers to `function`.
pub open spec fn timer_reply(function: u64) -> (SbiError, u64) {
    if function == 0x100 {
        (SbiError::Success, 0)
    } else {
        (SbiError::NotSupported, 0)
    }
}

/// The machine after the timer extension handled `function` with argument
/// `a0`.
pub open spec fn timer_effect(function: u64, a0: u64, machine: MachineView) -> MachineView {
    if function == 0x100 {
        spec_set_timer(machine, a0)
    } else {
        machine
    }
}

/// Handler of the timer extension.
pub fn handle_timer_call(function: u64, context: &mut SbiContext, machine: &mut Machine) -> (r:
    SbiResult<()>)
    ensures
        r is Ok,
        *final(context) == old(context).with_reply(timer_reply(function)),
        final(machine)@ == timer_effect(function, old(context).a0, old(machine)@),
{
    match SbiFunction::from_id(function) {
        Some(SbiFunction::SetTimer) => {
            let time: u64 = context.a0;
            set_timer(machine, time);
            context.a0 = SbiError::Success.word();
            context.a1 = 0;
            Ok(())
        },
        _ => {
            context.a0 = SbiError::NotSupported.word();
            context.a1 = 0;
            Ok(())
        },
    }
}

/// Programs the next timer interrupt for the absolute tick `time`. The
/// timer interrupt is masked while the comparator changes, so that no
/// interrupt fires against a deadline that is only half in place.
pub fn set_timer(machine: &mut Machine, time: u64)
    ensures
        final(machine)@ == spec_set_timer(old(machine)@, time),
{
    csr::disable_timer_interrupt(machine);
    csr::write_timecmp(machine, time);
    csr::enable_timer_interrupt(machine);
}

/// After the timer was set to `time` the comparator reads `time`, the timer
/// interrupt is enabled, and nothing else in the register file has changed.
pub proof fn lemma_set_timer_reads_back(machine: MachineView, time: u64)
    ensures
        spec_set_timer(machine, time).mtimecmp == time,
        spec_set_timer(machine, time).csrs == machine.csrs.set(Csr::MIE, machine.csrs.mie | MIE_MTIE),
        spec_set_timer(machine, time).csrs.mie & MIE_MTIE == MIE_MTIE,
        spec_set_timer(machine, time).mtime == machine.mtime,
        spec_set_timer(machine, time).frames == machine.frames,
        spec_set_timer(machine, time).journal == machine.journal + seq![
            crate::machine::Effect::CsrWrite(Csr::MIE, machine.csrs.mie & !MIE_MTIE),
            crate::machine::Effect::TimecmpWrite(time),
            crate::machine::Effect::CsrWrite(Csr::MIE, machine.csrs.mie | MIE_MTIE),
        ],
{
    let mie = machine.csrs.mie;
    assert((mie & !MIE_MTIE) | MIE_MTIE == mie | MIE_MTIE) by (bit_vector);
    assert((mie | MIE_MTIE) & MIE_MTIE == MIE_MTIE) by (bit_vector);
    assert(spec_set_timer(machine, time).journal =~= machine.journal + seq![
        crate::machine::Effect::CsrWrite(Csr::MIE, machine.csrs.mie & !MIE_MTIE),
        crate::machine::Effect::TimecmpWrite(time),
        crate::machine::Effect::CsrWrite(Csr::MIE, machine.csrs.mie | MIE_MTIE),
    ]);
}

} // verus!
