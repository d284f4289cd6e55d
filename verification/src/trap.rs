//! Trap cause classification and routing: every value of the cause
//! register selects exactly one handler, and the handler's effect on the
//! trapped registers and on the machine is stated.

use vstd::prelude::*;

use crate::csr;
use crate::csr::{Csr, MIE_MTIE, MSTATUS_MIE, MTVEC_MODE_MASK};
use crate::instructions;
use crate::machine::{Effect, Machine, MachineView};
use crate::sbi;
use crate::sbi::SbiError;
use crate::timer;
use crate::timer::TickCounter;

verus! {

/// Bit of the cause register that tells an interrupt from an exception.
pub const INTERRUPT_BIT: u64 = 0x8000_0000_0000_0000;

/// The bits of the cause register that hold the code.
pub const CAUSE_CODE_MASK: u64 = 0x7fff_ffff_ffff_ffff;

/// Width of the `ecall` instruction in bytes.
pub const ECALL_WIDTH: u64 = 4;

/// Interrupt causes
pub const INTERRUPT_U_SOFT: u64 = 0;

pub const INTERRUPT_S_SOFT: u64 = 1;

pub const INTERRUPT_M_SOFT: u64 = 3;

pub const INTERRUPT_U_TIMER: u64 = 4;

pub const INTERRUPT_S_TIMER: u64 = 5;

pub const INTERRUPT_M_TIMER: u64 = 7;

pub const INTERRUPT_U_EXT: u64 = 8;

pub const INTERRUPT_S_EXT: u64 = 9;

pub const INTERRUPT_M_EXT: u64 = 11;

/// Exception causes
pub const EXCEPTION_INST_ADDR_MISALIGNED: u64 = 0;

pub const EXCEPTION_INST_ACCESS_FAULT: u64 = 1;

pub const EXCEPTION_ILLEGAL_INST: u64 = 2;

pub const EXCEPTION_BREAKPOINT: u64 = 3;

pub const EXCEPTION_LOAD_ADDR_MISALIGNED: u64 = 4;

pub const EXCEPTION_LOAD_ACCESS_FAULT: u64 = 5;

pub const EXCEPTION_STORE_ADDR_MISALIGNED: u64 = 6;

pub const EXCEPTION_STORE_ACCESS_FAULT: u64 = 7;

pub const EXCEPTION_ECALL_FROM_U: u64 = 8;

pub const EXCEPTION_ECALL_FROM_S: u64 = 9;

pub const EXCEPTION_ECALL_FROM_M: u64 = 11;

pub const EXCEPTION_INST_PAGE_FAULT: u64 = 12;

pub const EXCEPTION_LOAD_PAGE_FAULT: u64 = 13;

pub const EXCEPTION_STORE_PAGE_FAULT: u64 = 15;

/// SBI call context
#[derive(Debug, Clone, Copy, PartialEq, Eq, Structural)]
pub struct SbiContext {
    pub a0: u64,
    pub a1: u64,
    pub a2: u64,
    pub a3: u64,
    pub a4: u64,
    pub a5: u64,
    pub a6: u64,
    pub a7: u64,
}

/// Trap context (register state)
#[derive(Debug, Clone, Copy, PartialEq, Eq, Structural)]
pub struct TrapFrame {
    // general-purpose registers
    pub zero: u64,
    pub ra: u64,
    pub sp: u64,
    pub gp: u64,
    pub tp: u64,
    pub t0: u64,
    pub t1: u64,
    pub t2: u64,
    pub s0: u64,
    pub s1: u64,
    pub a0: u64,
    pub a1: u64,
    pub a2: u64,
    pub a3: u64,
    pub a4: u64,
    pub a5: u64,
    pub a6: u64,
    pub a7: u64,
    pub s2: u64,
    pub s3: u64,
    pub s4: u64,
    pub s5: u64,
    pub s6: u64,
    pub s7: u64,
    pub s8: u64,
    pub s9: u64,
    pub s10: u64,
    pub s11: u64,
    pub t3: u64,
    pub t4: u64,
    pub t5: u64,
    pub t6: u64,
}

/// A decoded trap cause: the kind of trap and its code.
#[derive(Debug, Clone, Copy, PartialEq, Eq, Structural)]
pub enum CauseCode {
    Interrupt(u64),
    Exception(u64),
}

/// The handlers that a trap can be routed to.
#[derive(Debug, Clone, Copy, PartialEq, Eq, Structural)]
pub enum TrapHandler {
    MachineTimer,
    MachineSoftware,
    MachineExternal,
    IllegalInstruction,
    EcallFromUser,
    EcallFromSupervisor,
    EcallFromMachine,
    Default,
}

/// How the hart goes on after a trap was handled.
#[derive(Debug, Clone, Copy, PartialEq, Eq, Structural)]
pub enum TrapOutcome {
    /// The trapped code is resumed at the exception program counter.
    Resume,
    /// There is nowhere safe to resume: the hart stops for good.
    Halt,
}

impl SbiContext {
    /// The context after a handler answered: the error code in `a0`, the
    /// value in `a1`, every other register as it was.
    pub open spec fn with_reply(self, reply: (SbiError, u64)) -> SbiContext {
        SbiContext { a0: reply.0.spec_word(), a1: reply.1, ..self }
    }
}

impl CauseCode {
    /// Whether the cause is an interrupt.
    pub open spec fn spec_is_interrupt(self) -> bool {
        self is Interrupt
    }

    /// The code of the cause, without its kind.
    pub open spec fn spec_code(self) -> u64 {
        match self {
            CauseCode::Interrupt(code) => code,
            CauseCode::Exception(code) => code,
        }
    }

    /// Whether the cause is an interrupt.
    pub fn is_interrupt(&self) -> (r: bool)
        ensures
            r == self.spec_is_interrupt(),
    {
        match self {
            CauseCode::Interrupt(_) => true,
            CauseCode::Exception(_) => false,
        }
    }

    /// The code of the cause, without its kind.
    pub fn code(&self) -> (r: u64)
        ensures
            r == self.spec_code(),
    {
        match self {
            CauseCode::Interrupt(code) => *code,
            CauseCode::Exception(code) => *code,
        }
    }
}

impl TrapFrame {
    /// The registers in the order of their numbers, `x0` to `x31`.
    pub open spec fn registers(self) -> Seq<u64> {
        seq![
            self.zero,
            self.ra,
            self.sp,
            self.gp,
            self.tp,
            self.t0,
            self.t1,
            self.t2,
            self.s0,
            self.s1,
            self.a0,
            self.a1,
            self.a2,
            self.a3,
            self.a4,
            self.a5,
            self.a6,
            self.a7,
            self.s2,
            self.s3,
            self.s4,
            self.s5,
            self.s6,
            self.s7,
            self.s8,
            self.s9,
            self.s10,
            self.s11,
            self.t3,
            self.t4,
            self.t5,
            self.t6,
        ]
    }

    /// The frame that holds `registers`, given in the order of their
    /// numbers.
    pub open spec fn from_registers(registers: Seq<u64>) -> TrapFrame {
        TrapFrame {
            zero: registers[0],
            ra: registers[1],
            sp: registers[2],
            gp: registers[3],
            tp: registers[4],
            t0: registers[5],
            t1: registers[6],
            t2: registers[7],
            s0: registers[8],
            s1: registers[9],
            a0: registers[10],
            a1: registers[11],
            a2: registers[12],
            a3: registers[13],
            a4: registers[14],
            a5: registers[15],
            a6: registers[16],
            a7: registers[17],
            s2: registers[18],
            s3: registers[19],
            s4: registers[20],
            s5: registers[21],
            s6: registers[22],
            s7: registers[23],
            s8: registers[24],
            s9: registers[25],
            s10: registers[26],
            s11: registers[27],
            t3: registers[28],
            t4: registers[29],
            t5: registers[30],
            t6: registers[31],
        }
    }

    /// The arguments of a call as the trapped code left them in `a0` to
    /// `a7`.
    pub open spec fn spec_sbi_context(self) -> SbiContext {
        SbiContext {
            a0: self.a0,
            a1: self.a1,
            a2: self.a2,
            a3: self.a3,
            a4: self.a4,
            a5: self.a5,
            a6: self.a6,
            a7: self.a7,
        }
    }

    /// The frame with register number `reg` holding `value`, for the two
    /// registers that carry a call's answer.
    pub open spec fn spec_write_register(self, reg: u64, value: u64) -> TrapFrame {
        if reg == 10 {
            TrapFrame { a0: value, ..self }
        } else if reg == 11 {
            TrapFrame { a1: value, ..self }
        } else {
            self
        }
    }

    /// A frame with every register zero.
    pub fn zeroed() -> (r: TrapFrame)
        ensures
            r.registers() == Seq::new(32, |i: int| 0u64),
    {
        let r = TrapFrame {
            zero: 0,
            ra: 0,
            sp: 0,
            gp: 0,
            tp: 0,
            t0: 0,
            t1: 0,
            t2: 0,
            s0: 0,
            s1: 0,
            a0: 0,
            a1: 0,
            a2: 0,
            a3: 0,
            a4: 0,
            a5: 0,
            a6: 0,
            a7: 0,
            s2: 0,
            s3: 0,
            s4: 0,
            s5: 0,
            s6: 0,
            s7: 0,
            s8: 0,
            s9: 0,
            s10: 0,
            s11: 0,
            t3: 0,
            t4: 0,
            t5: 0,
            t6: 0,
        };
        assert(r.registers() =~= Seq::new(32, |i: int| 0u64));
        r
    }

    /// The frame that holds `registers`, given in the order of their
    /// numbers.
    pub fn save(registers: &[u64; 32]) -> (r: TrapFrame)
        ensures
            r == Self::from_registers(registers@),
            r.registers() == registers@,
    {
        let r = TrapFrame {
            zero: registers[0],
            ra: registers[1],
            sp: registers[2],
            gp: registers[3],
            tp: registers[4],
            t0: registers[5],
            t1: registers[6],
            t2: registers[7],
            s0: registers[8],
            s1: registers[9],
            a0: registers[10],
            a1: registers[11],
            a2: registers[12],
            a3: registers[13],
            a4: registers[14],
            a5: registers[15],
            a6: registers[16],
            a7: registers[17],
            s2: registers[18],
            s3: registers[19],
            s4: registers[20],
            s5: registers[21],
            s6: registers[22],
            s7: registers[23],
            s8: registers[24],
            s9: registers[25],
            s10: registers[26],
            s11: registers[27],
            t3: registers[28],
            t4: registers[29],
            t5: registers[30],
            t6: registers[31],
        };
        assert(r.registers() =~= registers@);
        r
    }

    /// The registers that the frame holds, in the order of their numbers.
    pub fn restore(&self) -> (r: [u64; 32])
        ensures
            r@ == self.registers(),
    {
        let r: [u64; 32] = [
            self.zero,
            self.ra,
            self.sp,
            self.gp,
            self.tp,
            self.t0,
            self.t1,
            self.t2,
            self.s0,
            self.s1,
            self.a0,
            self.a1,
            self.a2,
            self.a3,
            self.a4,
            self.a5,
            self.a6,
            self.a7,
            self.s2,
            self.s3,
            self.s4,
            self.s5,
            self.s6,
            self.s7,
            self.s8,
            self.s9,
            self.s10,
            self.s11,
            self.t3,
            self.t4,
            self.t5,
            self.t6,
        ];
        assert(r@ =~= self.registers());
        r
    }

    /// The arguments of a call as the trapped code left them in `a0` to
    /// `a7`.
    pub fn sbi_context(&self) -> (r: SbiContext)
        ensures
            r == self.spec_sbi_context(),
    {
        SbiContext {
            a0: read_register(self, 10),
            a1: read_register(self, 11),
            a2: read_register(self, 12),
            a3: read_register(self, 13),
            a4: read_register(self, 14),
            a5: read_register(self, 15),
            a6: read_register(self, 16),
            a7: read_register(self, 17),
        }
    }
}

impl Default for TrapFrame {
    fn default() -> (r: TrapFrame)
        ensures
            r.registers() == Seq::new(32, |i: int| 0u64),
    {
        TrapFrame::zeroed()
    }
}

/// The kind and code that the cause register value `cause` stands for: the
/// top bit tells the kind, the other bits are the code.
pub open spec fn spec_decode(cause: u64) -> CauseCode {
    if cause & INTERRUPT_BIT != 0 {
        CauseCode::Interrupt(cause & CAUSE_CODE_MASK)
    } else {
        CauseCode::Exception(cause & CAUSE_CODE_MASK)
    }
}

/// The handler that a cause is routed to.
pub open spec fn spec_route(cause: CauseCode) -> TrapHandler {
    match cause {
        CauseCode::Interrupt(code) => {
            if code == INTERRUPT_M_TIMER {
                TrapHandler::MachineTimer
            } else if code == INTERRUPT_M_SOFT {
                TrapHandler::MachineSoftware
            } else if code == INTERRUPT_M_EXT {
                TrapHandler::MachineExternal
            } else {
                TrapHandler::Default
            }
        },
        CauseCode::Exception(code) => {
            if code == EXCEPTION_ECALL_FROM_U {
                TrapHandler::EcallFromUser
            } else if code == EXCEPTION_ECALL_FROM_S {
                TrapHandler::EcallFromSupervisor
            } else if code == EXCEPTION_ECALL_FROM_M {
                TrapHandler::EcallFromMachine
            } else if code == EXCEPTION_ILLEGAL_INST {
                TrapHandler::IllegalInstruction
            } else {
                TrapHandler::Default
            }
        },
    }
}

/// How the hart goes on after `handler` ran: a call from a mode that
/// machine mode does not serve leaves nowhere safe to resume.
pub open spec fn spec_outcome(handler: TrapHandler) -> TrapOutcome {
    match handler {
        TrapHandler::EcallFromUser | TrapHandler::EcallFromSupervisor => TrapOutcome::Halt,
        _ => TrapOutcome::Resume,
    }
}

/// The trapped registers after a call from machine mode was served: the
/// answer in `a0` and `a1`, every other register as it was.
pub open spec fn spec_ecall_frame(frame: TrapFrame, machine: MachineView) -> TrapFrame {
    let reply = sbi::sbi_reply(frame.spec_sbi_context(), machine);
    TrapFrame { a0: reply.0.spec_word(), a1: reply.1, ..frame }
}

/// The machine after a call from machine mode, trapped at `mepc`, was
/// served: the call's effect, then the exception program counter moved
/// past the `ecall`.
pub open spec fn spec_ecall_machine(frame: TrapFrame, machine: MachineView, mepc: u64)
    -> MachineView {
    sbi::sbi_effect(frame.spec_sbi_context(), machine).write_csr(
        Csr::MEPC,
        timer::wrapping_sum(mepc, ECALL_WIDTH),
    )
}

/// The trapped registers after the trap that the machine's cause register
/// shows was handled.
pub open spec fn spec_trap_frame(frame: TrapFrame, machine: MachineView) -> TrapFrame {
    if spec_route(spec_decode(machine.csrs.mcause)) == TrapHandler::EcallFromMachine {
        spec_ecall_frame(frame, machine)
    } else {
        frame
    }
}

/// The machine after the trap that its cause register shows was handled.
pub open spec fn spec_trap_machine(frame: TrapFrame, machine: MachineView) -> MachineView {
    match spec_route(spec_decode(machine.csrs.mcause)) {
        TrapHandler::MachineTimer => timer::spec_schedule_tick(machine),
        TrapHandler::EcallFromMachine => spec_ecall_machine(frame, machine, machine.csrs.mepc),
        _ => machine,
    }
}

/// The tick count after the trap that the machine's cause register shows
/// was handled.
pub open spec fn spec_trap_ticks(ticks: u64, machine: MachineView) -> u64 {
    if spec_route(spec_decode(machine.csrs.mcause)) == TrapHandler::MachineTimer {
        timer::wrapping_sum(ticks, 1)
    } else {
        ticks
    }
}

/// The machine after the trap vector was installed at `handler`: interrupts
/// off, the vector written in direct mode, the timer interrupt enabled,
/// interrupts on.
pub open spec fn spec_init(machine: MachineView, handler: u64) -> MachineView {
    let quiet = machine.write_csr(Csr::MSTATUS, machine.csrs.mstatus & !MSTATUS_MIE);
    let vectored = quiet.write_csr(Csr::MTVEC, handler & !MTVEC_MODE_MASK);
    let armed = vectored.write_csr(Csr::MIE, vectored.csrs.mie | MIE_MTIE);
    armed.write_csr(Csr::MSTATUS, armed.csrs.mstatus | MSTATUS_MIE)
}

/// Set up the trap handler vector
pub fn init(machine: &mut Machine, handler: u64)
    ensures
        final(machine)@ == spec_init(old(machine)@, handler),
{
    // Disable interrupts before setting up trap handler
    instructions::disable_irqs(machine);

    // Set trap handler address
    csr::write_mtvec(machine, handler);

    // Enable timer interrupt
    instructions::enable_mtie(machine);

    // Enable global interrupts
    instructions::enable_irqs(machine);
}

/// Splits a value of the cause register into the kind of trap and its code:
/// the trap is an interrupt exactly when the top bit of `cause` is set, and
/// the code is `cause` with the top bit cleared.
pub fn decode(cause: u64) -> (r: CauseCode)
    ensures
        r == spec_decode(cause),
        r.spec_is_interrupt() == (cause >> 63 == 1),
        r.spec_code() == cause & !INTERRUPT_BIT,
{
    proof {
        lemma_decode_bits(cause);
    }
    let is_interrupt: bool = (cause & INTERRUPT_BIT) != 0;
    let cause_code: u64 = cause & CAUSE_CODE_MASK;
    if is_interrupt {
        CauseCode::Interrupt(cause_code)
    } else {
        CauseCode::Exception(cause_code)
    }
}

/// The handler that `cause` is routed to. Every cause has exactly one: a
/// handler of its own, or the default.
pub fn route(cause: CauseCode) -> (r: TrapHandler)
    ensures
        r == spec_route(cause),
{
    match cause {
        CauseCode::Interrupt(code) => {
            if code == INTERRUPT_M_TIMER {
                TrapHandler::MachineTimer
            } else if code == INTERRUPT_M_SOFT {
                TrapHandler::MachineSoftware
            } else if code == INTERRUPT_M_EXT {
                TrapHandler::MachineExternal
            } else {
                TrapHandler::Default
            }
        },
        CauseCode::Exception(code) => {
            if code == EXCEPTION_ECALL_FROM_U {
                TrapHandler::EcallFromUser
            } else if code == EXCEPTION_ECALL_FROM_S {
                TrapHandler::EcallFromSupervisor
            } else if code == EXCEPTION_ECALL_FROM_M {
                TrapHandler::EcallFromMachine
            } else if code == EXCEPTION_ILLEGAL_INST {
                TrapHandler::IllegalInstruction
            } else {
                TrapHandler::Default
            }
        },
    }
}

/// The handler that the cause register value `cause` is routed to.
pub fn dispatch(cause: u64) -> (r: TrapHandler)
    ensures
        r == spec_route(spec_decode(cause)),
{
    route(decode(cause))
}

/// Rust trap handler: handles the trap that the machine's cause register
/// shows, on the registers saved at trap entry. Only a call from machine
/// mode changes the saved registers, and of those only `a0` and `a1`.
pub fn trap_handler_rust(frame: &mut TrapFrame, machine: &mut Machine, counter: &mut TickCounter)
    -> (r: TrapOutcome)
    ensures
        r == spec_outcome(spec_route(spec_decode(old(machine).csrs.mcause))),
        *final(frame) == spec_trap_frame(*old(frame), old(machine)@),
        final(machine)@ == spec_trap_machine(*old(frame), old(machine)@),
        final(counter).ticks == spec_trap_ticks(old(counter).ticks, old(machine)@),
{
    let mcause: u64 = csr::read_mcause(machine);
    let mepc: u64 = csr::read_mepc(machine);
    let mtval: u64 = csr::read_mtval(machine);

    match decode(mcause) {
        CauseCode::Interrupt(cause_code) => handle_interrupt(cause_code, machine, counter),
        CauseCode::Exception(cause_code) => handle_exception(
            cause_code,
            mepc,
            mtval,
            frame,
            machine,
        ),
    }
}

/// Handle interrupts: the machine timer interrupt counts a tick and
/// schedules the next one; every other interrupt changes nothing.
pub fn handle_interrupt(cause: u64, machine: &mut Machine, counter: &mut TickCounter) -> (r:
    TrapOutcome)
    ensures
        r == TrapOutcome::Resume,
        final(machine)@ == if cause == INTERRUPT_M_TIMER {
            timer::spec_schedule_tick(old(machine)@)
        } else {
            old(machine)@
        },
        final(counter).ticks == if cause == INTERRUPT_M_TIMER {
            timer::wrapping_sum(old(counter).ticks, 1)
        } else {
            old(counter).ticks
        },
{
    match route(CauseCode::Interrupt(cause)) {
        TrapHandler::MachineTimer => {
            timer::handle_timer_interrupt(counter, machine);
        },
        TrapHandler::MachineSoftware => {
            // Software interrupt - can be used for IPI
        },
        TrapHandler::MachineExternal => {
            // External interrupt
        },
        _ => {},
    }
    TrapOutcome::Resume
}

/// Handle exceptions
pub fn handle_exception(
    code: u64,
    mepc: u64,
    mtval: u64,
    frame: &mut TrapFrame,
    machine: &mut Machine,
) -> (r: TrapOutcome)
    ensures
        r == spec_outcome(spec_route(CauseCode::Exception(code))),
        *final(frame) == if code == EXCEPTION_ECALL_FROM_M {
            spec_ecall_frame(*old(frame), old(machine)@)
        } else {
            *old(frame)
        },
        final(machine)@ == if code == EXCEPTION_ECALL_FROM_M {
            spec_ecall_machine(*old(frame), old(machine)@, mepc)
        } else {
            old(machine)@
        },
{
    match route(CauseCode::Exception(code)) {
        TrapHandler::EcallFromUser => handle_ecall_from_u_mode(mepc),
        TrapHandler::EcallFromSupervisor => handle_ecall_from_s_mode(mepc),
        TrapHandler::EcallFromMachine => handle_ecall_from_m_mode(mepc, frame, machine),
        _ => TrapOutcome::Resume,
    }
}

/// Handles a call from user mode, which machine mode does not serve.
pub fn handle_ecall_from_u_mode(mepc: u64) -> (r: TrapOutcome)
    ensures
        r == TrapOutcome::Halt,
{
    TrapOutcome::Halt
}

/// Handles a call from supervisor mode, which machine mode does not serve.
pub fn handle_ecall_from_s_mode(mepc: u64) -> (r: TrapOutcome)
    ensures
        r == TrapOutcome::Halt,
{
    TrapOutcome::Halt
}

/// Handles a call from machine mode: serves it as an SBI call on the
/// trapped registers, writes the answer back to `a0` and `a1`, and moves
/// the exception program counter past the `ecall`.
pub fn handle_ecall_from_m_mode(mepc: u64, frame: &mut TrapFrame, machine: &mut Machine) -> (r:
    TrapOutcome)
    ensures
        r == TrapOutcome::Resume,
        *final(frame) == spec_ecall_frame(*old(frame), old(machine)@),
        final(machine)@ == spec_ecall_machine(*old(frame), old(machine)@, mepc),
{
    let mut context: SbiContext = frame.sbi_context();

    let result = sbi::handle_sbi_call(&mut context, machine);

    write_register(frame, 10, context.a0);  // a0
    write_register(frame, 11, context.a1);  // a1

    csr::write_mepc(machine, mepc.wrapping_add(ECALL_WIDTH));

    match result {
        Ok(()) => TrapOutcome::Resume,
        Err(_) => TrapOutcome::Halt,
    }
}

/// The value of argument register number `reg`, one of `a0` to `a7`, in
/// the trapped registers.
pub fn read_register(frame: &TrapFrame, reg: u64) -> (value: u64)
    requires
        10 <= reg <= 17,
    ensures
        value == frame.registers()[reg as int],
{
    if reg == 10 {
        frame.a0
    } else if reg == 11 {
        frame.a1
    } else if reg == 12 {
        frame.a2
    } else if reg == 13 {
        frame.a3
    } else if reg == 14 {
        frame.a4
    } else if reg == 15 {
        frame.a5
    } else if reg == 16 {
        frame.a6
    } else {
        frame.a7
    }
}

/// Stores `value` in answer register number `reg`, `a0` or `a1`, of the
/// trapped registers.
pub fn write_register(frame: &mut TrapFrame, reg: u64, value: u64)
    requires
        reg == 10 || reg == 11,
    ensures
        *final(frame) == old(frame).spec_write_register(reg, value),
        final(frame).registers() == old(frame).registers().update(reg as int, value),
{
    if reg == 10 {
        frame.a0 = value;
    } else {
        frame.a1 = value;
    }
    assert(frame.registers() =~= old(frame).registers().update(reg as int, value));
}

/// A decoded cause is an interrupt exactly when the top bit of the raw value
/// is set, and its code is the raw value with the top bit cleared: the raw
/// value itself below two to the 63rd, and that much less from there on.
pub proof fn lemma_decode_bits(cause: u64)
    ensures
        spec_decode(cause).spec_is_interrupt() == (cause >> 63 == 1),
        spec_decode(cause).spec_is_interrupt() == (cause >= 0x8000_0000_0000_0000),
        spec_decode(cause).spec_code() == cause & !INTERRUPT_BIT,
        spec_decode(cause).spec_code() == if cause >= 0x8000_0000_0000_0000 {
            cause - 0x8000_0000_0000_0000
        } else {
            cause as int
        },
{
    assert((cause & 0x8000_0000_0000_0000 != 0) == (cause >> 63 == 1)) by (bit_vector);
    assert((cause & 0x8000_0000_0000_0000 != 0) == (cause >= 0x8000_0000_0000_0000))
        by (bit_vector);
    assert(cause & 0x7fff_ffff_ffff_ffff == cause & !0x8000_0000_0000_0000u64) by (bit_vector);
    assert(cause >= 0x8000_0000_0000_0000 ==> cause & 0x7fff_ffff_ffff_ffff == cause
        - 0x8000_0000_0000_0000) by (bit_vector);
    assert(cause < 0x8000_0000_0000_0000 ==> cause & 0x7fff_ffff_ffff_ffff == cause)
        by (bit_vector);
}

/// Every value of the cause register is routed to exactly one handler, and
/// to one of the seven in the table only by its own kind and code.
pub proof fn lemma_route_table(cause: u64)
    ensures
        spec_route(spec_decode(cause)) == TrapHandler::MachineTimer <==> cause
            == 0x8000_0000_0000_0007,
        spec_route(spec_decode(cause)) == TrapHandler::MachineSoftware <==> cause
            == 0x8000_0000_0000_0003,
        spec_route(spec_decode(cause)) == TrapHandler::MachineExternal <==> cause
            == 0x8000_0000_0000_000B,
        spec_route(spec_decode(cause)) == TrapHandler::IllegalInstruction <==> cause == 2,
        spec_route(spec_decode(cause)) == TrapHandler::EcallFromUser <==> cause == 8,
        spec_route(spec_decode(cause)) == TrapHandler::EcallFromSupervisor <==> cause == 9,
        spec_route(spec_decode(cause)) == TrapHandler::EcallFromMachine <==> cause == 11,
{
    lemma_decode_bits(cause);
}

/// Saving registers to a frame and restoring them gives the same registers
/// back, and a frame rebuilt from its own registers is the same frame.
pub proof fn lemma_save_restore_round_trip(registers: Seq<u64>, frame: TrapFrame)
    requires
        registers.len() == 32,
    ensures
        TrapFrame::from_registers(registers).registers() == registers,
        TrapFrame::from_registers(frame.registers()) == frame,
{
    assert(TrapFrame::from_registers(registers).registers() =~= registers);
}

/// Whatever the trap, the handler leaves every saved register as it was,
/// but for `a0` and `a1` when the trap is a call from machine mode, which
/// then hold the call's answer.
pub proof fn lemma_trap_preserves_frame(frame: TrapFrame, machine: MachineView)
    ensures
        spec_trap_frame(frame, machine).registers().len() == 32,
        forall|i: int|
            0 <= i < 32 && i != 10 && i != 11 ==> spec_trap_frame(frame, machine).registers()[i]
                == frame.registers()[i],
        spec_route(spec_decode(machine.csrs.mcause)) != TrapHandler::EcallFromMachine
            ==> spec_trap_frame(frame, machine) == frame,
        spec_route(spec_decode(machine.csrs.mcause)) == TrapHandler::EcallFromMachine ==> {
            &&& spec_trap_frame(frame, machine).a0 == sbi::sbi_reply(
                frame.spec_sbi_context(),
                machine,
            ).0.spec_word()
            &&& spec_trap_frame(frame, machine).a1 == sbi::sbi_reply(
                frame.spec_sbi_context(),
                machine,
            ).1
        },
{
}

/// A call from machine mode moves the exception program counter past the
/// `ecall`: by four, as long as that address exists.
pub proof fn lemma_ecall_advances_pc(frame: TrapFrame, machine: MachineView, mepc: u64)
    requires
        mepc + ECALL_WIDTH <= u64::MAX,
    ensures
        spec_ecall_machine(frame, machine, mepc).csrs.mepc == mepc + 4,
{
}

/// When the comparator has matched at deadline `deadline` and the trap is
/// the machine timer interrupt, handling it counts exactly one tick and
/// leaves a comparator strictly after `deadline`. Both sums must fit 64
/// bits.
pub proof fn lemma_timer_interrupt_reprograms(
    frame: TrapFrame,
    machine: MachineView,
    ticks: u64,
    deadline: u64,
)
    requires
        spec_route(spec_decode(machine.csrs.mcause)) == TrapHandler::MachineTimer,
        machine.mtimecmp == deadline,
        machine.mtime >= deadline,
        machine.mtime + timer::TIMER_INTERVAL <= u64::MAX,
        ticks < u64::MAX,
    ensures
        spec_trap_machine(frame, machine).mtimecmp == machine.mtime + timer::TIMER_INTERVAL,
        spec_trap_machine(frame, machine).mtimecmp > deadline,
        spec_trap_machine(frame, machine).journal == machine.journal.push(
            Effect::TimecmpWrite(timer::next_deadline(machine.mtime)),
        ),
        spec_trap_machine(frame, machine).csrs == machine.csrs,
        spec_trap_ticks(ticks, machine) == ticks + 1,
        spec_trap_frame(frame, machine) == frame,
{
    timer::lemma_deadline_after_now(machine.mtime);
}

/// No trap handler touches the machine status register, the timer's
/// counter, the serial port or the frame pool: a handler runs with
/// interrupts as the trap left them, and what it journals comes after what
/// was journalled before.
pub proof fn lemma_trap_leaves_status(frame: TrapFrame, machine: MachineView)
    ensures
        spec_trap_machine(frame, machine).csrs.mstatus == machine.csrs.mstatus,
        spec_trap_machine(frame, machine).mtime == machine.mtime,
        spec_trap_machine(frame, machine).serial == machine.serial,
        spec_trap_machine(frame, machine).frames == machine.frames,
        machine.journal.is_prefix_of(spec_trap_machine(frame, machine).journal),
{
    let context = frame.spec_sbi_context();
    crate::sbi::timer::lemma_set_timer_reads_back(machine, context.a0);
    let after_call = sbi::sbi_effect(context, machine);
    assert(machine.journal.is_prefix_of(after_call.journal));
    assert(after_call.journal.is_prefix_of(
        spec_ecall_machine(frame, machine, machine.csrs.mepc).journal,
    ));
}

} // verus!
