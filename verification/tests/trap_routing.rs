use rvmon::csr::{Csr, CsrFile};
use rvmon::machine::{Effect, Machine};
use rvmon::mm::FramePool;
use rvmon::timer::TickCounter;
use rvmon::trap::{
    decode, dispatch, handle_ecall_from_m_mode, handle_ecall_from_s_mode,
    handle_ecall_from_u_mode, handle_exception, handle_interrupt, init, read_register, route,
    trap_handler_rust, write_register, CauseCode, TrapFrame, TrapHandler, TrapOutcome,
};

const TOP: u64 = 0x8000_0000_0000_0000;

fn machine() -> Machine {
    Machine::new(CsrFile::reset(0, 0x80), 40_000, FramePool::new(0x8020_0000, 2, 0, 0).unwrap())
}

fn numbered_registers() -> [u64; 32] {
    let mut regs = [0u64; 32];
    for (i, reg) in regs.iter_mut().enumerate() {
        *reg = 0x100 + i as u64;
    }
    regs
}

#[test]
fn decode_takes_the_top_bit_as_the_kind() {
    for cause in [0u64, 1, 7, 11, 0x7fff_ffff_ffff_ffff, TOP, TOP | 7, TOP | 11, u64::MAX] {
        let decoded = decode(cause);
        assert_eq!(decoded.is_interrupt(), cause >> 63 == 1, "cause {:#x}", cause);
        assert_eq!(decoded.code(), cause & !TOP, "cause {:#x}", cause);
    }
    assert_eq!(decode(TOP | 7), CauseCode::Interrupt(7));
    assert_eq!(decode(11), CauseCode::Exception(11));
    assert_eq!(decode(u64::MAX), CauseCode::Interrupt(0x7fff_ffff_ffff_ffff));
    assert_eq!(decode(0), CauseCode::Exception(0));
}

#[test]
fn route_knows_seven_causes() {
    assert_eq!(dispatch(TOP | 7), TrapHandler::MachineTimer);
    assert_eq!(dispatch(TOP | 3), TrapHandler::MachineSoftware);
    assert_eq!(dispatch(TOP | 11), TrapHandler::MachineExternal);
    assert_eq!(dispatch(2), TrapHandler::IllegalInstruction);
    assert_eq!(dispatch(8), TrapHandler::EcallFromUser);
    assert_eq!(dispatch(9), TrapHandler::EcallFromSupervisor);
    assert_eq!(dispatch(11), TrapHandler::EcallFromMachine);
}

#[test]
fn route_sends_every_other_cause_to_the_default() {
    for code in [0u64, 1, 2, 4, 5, 6, 8, 9, 10, 12, 0x7fff_ffff_ffff_ffff] {
        assert_eq!(route(CauseCode::Interrupt(code)), TrapHandler::Default);
    }
    for code in [0u64, 1, 3, 4, 5, 6, 7, 10, 12, 13, 15, 0x7fff_ffff_ffff_ffff] {
        assert_eq!(route(CauseCode::Exception(code)), TrapHandler::Default);
    }
    assert_eq!(dispatch(7), TrapHandler::Default);
    assert_eq!(dispatch(TOP | 2), TrapHandler::Default);
    assert_eq!(dispatch(TOP | 8), TrapHandler::Default);
}

#[test]
fn ecall_from_machine_mode_answers_and_steps_over_the_ecall() {
    let mut m = machine();
    m.csrs.mcause = 11;
    m.csrs.mepc = 0x8000_1000;
    let mut frame = TrapFrame::save(&numbered_registers());
    frame.a7 = 0x10;
    frame.a6 = 0;
    let before = frame;
    let mut counter = TickCounter::new();
    let outcome = trap_handler_rust(&mut frame, &mut m, &mut counter);
    assert_eq!(outcome, TrapOutcome::Resume);
    assert_eq!(frame.a0, 0);
    assert_eq!(frame.a1, 2);
    assert_eq!(m.csrs.mepc, 0x8000_1004);
    assert_eq!(m.journal, vec![Effect::CsrWrite(Csr::MEPC, 0x8000_1004)]);
    assert_eq!(counter.ticks, 0);
    let mut expected = before;
    expected.a0 = 0;
    expected.a1 = 2;
    assert_eq!(frame, expected);
}

#[test]
fn ecall_changes_no_register_but_a0_and_a1() {
    let mut m = machine();
    let mut frame = TrapFrame::save(&numbered_registers());
    frame.a7 = 0x54494D45;
    frame.a6 = 0x100;
    frame.a0 = 99;
    let before = frame.restore();
    assert_eq!(handle_ecall_from_m_mode(0x100, &mut frame, &mut m), TrapOutcome::Resume);
    let after = frame.restore();
    for i in 0..32 {
        if i != 10 && i != 11 {
            assert_eq!(after[i], before[i], "register {}", i);
        }
    }
    assert_eq!(after[10], 0);
    assert_eq!(after[11], 0);
    assert_eq!(m.mtimecmp, 99);
    assert_eq!(m.csrs.mepc, 0x104);
}

#[test]
fn unknown_call_still_steps_over_the_ecall() {
    let mut m = machine();
    let mut frame = TrapFrame::default();
    frame.a7 = 0xDEAD;
    assert_eq!(handle_exception(11, 0x2000, 0, &mut frame, &mut m), TrapOutcome::Resume);
    assert_eq!(frame.a0, (-2i64) as u64);
    assert_eq!(frame.a1, 0);
    assert_eq!(m.csrs.mepc, 0x2004);
}

#[test]
fn ecall_at_the_top_of_the_address_space_wraps() {
    let mut m = machine();
    let mut frame = TrapFrame::default();
    frame.a7 = 0x10;
    handle_ecall_from_m_mode(u64::MAX - 1, &mut frame, &mut m);
    assert_eq!(m.csrs.mepc, 2);
}

#[test]
fn save_and_restore_are_inverse() {
    let regs = numbered_registers();
    let frame = TrapFrame::save(&regs);
    assert_eq!(frame.restore(), regs);
    assert_eq!(TrapFrame::save(&frame.restore()), frame);
    assert_eq!(frame.zero, 0x100);
    assert_eq!(frame.ra, 0x101);
    assert_eq!(frame.sp, 0x102);
    assert_eq!(frame.s1, 0x109);
    assert_eq!(frame.a0, 0x10a);
    assert_eq!(frame.a7, 0x111);
    assert_eq!(frame.s2, 0x112);
    assert_eq!(frame.s11, 0x11b);
    assert_eq!(frame.t3, 0x11c);
    assert_eq!(frame.t6, 0x11f);
    assert_eq!(TrapFrame::default().restore(), [0u64; 32]);
    assert_eq!(TrapFrame::zeroed(), TrapFrame::default());
}

#[test]
fn argument_registers_are_read_by_number() {
    let frame = TrapFrame::save(&numbered_registers());
    for reg in 10..=17u64 {
        assert_eq!(read_register(&frame, reg), 0x100 + reg);
    }
    let ctx = frame.sbi_context();
    assert_eq!(ctx.a0, 0x10a);
    assert_eq!(ctx.a5, 0x10f);
    assert_eq!(ctx.a6, 0x110);
    assert_eq!(ctx.a7, 0x111);
    let mut frame = frame;
    write_register(&mut frame, 10, 1);
    write_register(&mut frame, 11, 2);
    let mut expected = numbered_registers();
    expected[10] = 1;
    expected[11] = 2;
    assert_eq!(frame.restore(), expected);
}

#[test]
fn timer_interrupt_counts_one_tick_and_reprograms_the_comparator() {
    let mut m = machine();
    let deadline = 30_000u64;
    m.mtimecmp = deadline;
    m.csrs.mie = 0x80;
    m.csrs.mcause = TOP | 7;
    let mut frame = TrapFrame::save(&numbered_registers());
    let before = frame;
    let mut counter = TickCounter { ticks: 41 };
    let outcome = trap_handler_rust(&mut frame, &mut m, &mut counter);
    assert_eq!(outcome, TrapOutcome::Resume);
    assert_eq!(counter.ticks, 42);
    assert_eq!(m.mtimecmp, 140_000);
    assert!(m.mtimecmp > deadline);
    assert_eq!(frame, before);
    assert_eq!(m.journal, vec![Effect::TimecmpWrite(140_000)]);
    assert_eq!(m.csrs.mie, 0x80);
}

#[test]
fn timer_interrupt_wraps_at_the_end_of_time() {
    let mut m = machine();
    m.mtime = u64::MAX;
    let mut counter = TickCounter { ticks: u64::MAX };
    assert_eq!(handle_interrupt(7, &mut m, &mut counter), TrapOutcome::Resume);
    assert_eq!(counter.ticks, 0);
    assert_eq!(m.mtimecmp, 99_999);
    assert_eq!(m.csrs.mie, 0);
}

#[test]
fn other_interrupts_change_nothing() {
    let mut m = machine();
    let mut counter = TickCounter { ticks: 5 };
    for cause in [0u64, 1, 3, 4, 5, 8, 9, 11, 12, 1 << 40] {
        assert_eq!(handle_interrupt(cause, &mut m, &mut counter), TrapOutcome::Resume);
    }
    assert_eq!(counter.ticks, 5);
    assert!(m.journal.is_empty());
    assert_eq!(m.mtimecmp, u64::MAX);
    assert_eq!(handle_interrupt(7, &mut m, &mut counter), TrapOutcome::Resume);
    assert_eq!(counter.ticks, 6);
}

#[test]
fn calls_from_lower_modes_halt_the_hart() {
    let mut m = machine();
    let mut frame = TrapFrame::save(&numbered_registers());
    let before = frame;
    assert_eq!(handle_exception(8, 0x1000, 0, &mut frame, &mut m), TrapOutcome::Halt);
    assert_eq!(handle_exception(9, 0x1000, 0, &mut frame, &mut m), TrapOutcome::Halt);
    assert_eq!(handle_ecall_from_u_mode(0x1000), TrapOutcome::Halt);
    assert_eq!(handle_ecall_from_s_mode(0x1000), TrapOutcome::Halt);
    assert_eq!(frame, before);
    assert!(m.journal.is_empty());
    assert_eq!(m.csrs.mepc, 0);
    m.csrs.mcause = 8;
    let mut counter = TickCounter::new();
    assert_eq!(trap_handler_rust(&mut frame, &mut m, &mut counter), TrapOutcome::Halt);
}

#[test]
fn other_exceptions_resume_unchanged() {
    let mut m = machine();
    let mut frame = TrapFrame::save(&numbered_registers());
    let before = frame;
    for code in [0u64, 1, 2, 3, 4, 5, 6, 7, 10, 12, 13, 15, 16, 1 << 50] {
        assert_eq!(handle_exception(code, 0x1000, 0x55, &mut frame, &mut m), TrapOutcome::Resume);
    }
    assert_eq!(frame, before);
    assert!(m.journal.is_empty());
    assert_eq!(m.csrs.mepc, 0);
}

#[test]
fn trap_init_installs_the_vector_with_interrupts_off() {
    let mut m = machine();
    m.csrs.mstatus = 0x1808;
    m.csrs.mie = 0x8;
    init(&mut m, 0x8000_0403);
    assert_eq!(
        m.journal,
        vec![
            Effect::CsrWrite(Csr::MSTATUS, 0x1800),
            Effect::CsrWrite(Csr::MTVEC, 0x8000_0400),
            Effect::CsrWrite(Csr::MIE, 0x88),
            Effect::CsrWrite(Csr::MSTATUS, 0x1808),
        ]
    );
    assert_eq!(m.csrs.mtvec, 0x8000_0400);
    assert_eq!(m.csrs.mie, 0x88);
    assert_eq!(m.csrs.mstatus, 0x1808);
}
