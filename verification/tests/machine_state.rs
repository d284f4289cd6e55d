use rvmon::boot;
use rvmon::csr;
use rvmon::csr::{Csr, CsrFile};
use rvmon::instructions;
use rvmon::machine::{Effect, Machine, SerialPort};
use rvmon::mm::{FramePool, PAGE_SIZE};
use rvmon::timer;
use rvmon::timer::{TickCounter, TimeValue};
use rvmon::uart;
use rvmon::uart::{LineStsFlags, Uart16550};

fn machine() -> Machine {
    Machine::new(CsrFile::reset(9, 0x80), 500, FramePool::new(0x8000_0000, 3, 0, 0x11).unwrap())
}

#[test]
fn a_new_machine_is_quiet() {
    let m = machine();
    assert_eq!(m.csrs, CsrFile::reset(9, 0x80));
    assert_eq!(m.csrs.mhartid, 9);
    assert_eq!(m.csrs.misa, 0x80);
    assert_eq!(m.csrs.mstatus, 0);
    assert_eq!(m.mtime, 500);
    assert_eq!(m.mtimecmp, u64::MAX);
    assert_eq!(m.serial, SerialPort { receive: 0, line_status: 0x20 });
    assert!(m.journal.is_empty());
    assert_eq!(m.frames.base(), 0x8000_0000);
    assert_eq!(m.frames.frame_count(), 3);
}

#[test]
fn typed_csr_access_reads_what_was_written() {
    let mut m = machine();
    let writable = [
        Csr::MSTATUS,
        Csr::MISA,
        Csr::MIE,
        Csr::MTVEC,
        Csr::MEPC,
        Csr::MCAUSE,
        Csr::MTVAL,
        Csr::SATP,
    ];
    for (i, reg) in writable.iter().enumerate() {
        assert!(!reg.read_only());
        reg.write(&mut m, 0x1000 + i as u64);
    }
    for (i, reg) in writable.iter().enumerate() {
        assert_eq!(reg.read(&m), 0x1000 + i as u64);
        assert_eq!(m.journal[i], Effect::CsrWrite(*reg, 0x1000 + i as u64));
    }
    assert_eq!(Csr::MHARTID.read(&m), 9);
    for reg in [Csr::MVENDORID, Csr::MARCHID, Csr::MIMPID, Csr::MHARTID] {
        assert!(reg.read_only());
    }
}

#[test]
fn csr_numbers() {
    let numbers = [
        (Csr::MSTATUS, 0x300u32),
        (Csr::MISA, 0x301),
        (Csr::MIE, 0x304),
        (Csr::MTVEC, 0x305),
        (Csr::MEPC, 0x341),
        (Csr::MCAUSE, 0x342),
        (Csr::MTVAL, 0x343),
        (Csr::SATP, 0x180),
        (Csr::MVENDORID, 0xF11),
        (Csr::MARCHID, 0xF12),
        (Csr::MIMPID, 0xF13),
        (Csr::MHARTID, 0xF14),
    ];
    for (reg, number) in numbers {
        assert_eq!(reg.address(), number);
        assert_eq!(reg.read_only(), number >> 10 == 3);
    }
}

#[test]
fn csr_file_write_changes_one_register() {
    let file = CsrFile::reset(1, 2);
    let next = file.write(Csr::MEPC, 0x44);
    assert_eq!(next.read(Csr::MEPC), 0x44);
    assert_eq!(next, CsrFile { mepc: 0x44, ..file });
    assert_eq!(file.read(Csr::MEPC), 0);
    assert_eq!(next.read(Csr::MHARTID), 1);
    assert_eq!(next.read(Csr::MISA), 2);
}

#[test]
fn named_csr_reads() {
    let mut m = machine();
    m.csrs.mvendorid = 1;
    m.csrs.marchid = 2;
    m.csrs.mimpid = 3;
    m.csrs.mcause = 4;
    m.csrs.mepc = 5;
    m.csrs.mtval = 6;
    m.csrs.mtvec = 0x8003;
    m.csrs.mstatus = 7;
    m.csrs.mie = 8;
    assert_eq!(csr::read_hart_id(&m), 9);
    assert_eq!(csr::read_misa(&m), 0x80);
    assert_eq!(csr::read_mvendorid(&m), 1);
    assert_eq!(csr::read_marchid(&m), 2);
    assert_eq!(csr::read_mimpid(&m), 3);
    assert_eq!(csr::read_mcause(&m), 4);
    assert_eq!(csr::read_mepc(&m), 5);
    assert_eq!(csr::read_mtval(&m), 6);
    assert_eq!(csr::read_mtvec(&m), 0x8000);
    assert_eq!(csr::read_time(&m), 500);
    assert_eq!(csr::read_timecmp(&m), u64::MAX);
    assert_eq!(instructions::read_hart_id(&m), 9);
    assert_eq!(instructions::read_mstatus(&m), 7);
    assert_eq!(instructions::read_mie(&m), 8);
    assert_eq!(instructions::read_mcause(&m), 4);
    assert_eq!(instructions::read_mepc(&m), 5);
    assert_eq!(instructions::read_mtval(&m), 6);
    assert!(m.journal.is_empty());
}

#[test]
fn named_csr_writes() {
    let mut m = machine();
    csr::write_mtvec(&mut m, 0x8000_0007);
    csr::write_mepc(&mut m, 0x10);
    csr::write_mtval(&mut m, 0x20);
    csr::write_timecmp(&mut m, 0x30);
    instructions::write_mstatus(&mut m, 0x40);
    instructions::write_mie(&mut m, 0x50);
    assert_eq!(m.csrs.mtvec, 0x8000_0004);
    assert_eq!(m.csrs.mepc, 0x10);
    assert_eq!(m.csrs.mtval, 0x20);
    assert_eq!(m.mtimecmp, 0x30);
    assert_eq!(m.csrs.mstatus, 0x40);
    assert_eq!(m.csrs.mie, 0x50);
    assert_eq!(
        m.journal,
        vec![
            Effect::CsrWrite(Csr::MTVEC, 0x8000_0004),
            Effect::CsrWrite(Csr::MEPC, 0x10),
            Effect::CsrWrite(Csr::MTVAL, 0x20),
            Effect::TimecmpWrite(0x30),
            Effect::CsrWrite(Csr::MSTATUS, 0x40),
            Effect::CsrWrite(Csr::MIE, 0x50),
        ]
    );
}

#[test]
fn interrupt_enable_bits() {
    let mut m = machine();
    m.csrs.mie = 0x1_0000;
    instructions::enable_msie(&mut m);
    assert_eq!(m.csrs.mie, 0x1_0008);
    instructions::enable_mtie(&mut m);
    assert_eq!(m.csrs.mie, 0x1_0088);
    instructions::enable_meie(&mut m);
    assert_eq!(m.csrs.mie, 0x1_0888);
    instructions::disable_mtie(&mut m);
    assert_eq!(m.csrs.mie, 0x1_0808);
    instructions::disable_msie(&mut m);
    assert_eq!(m.csrs.mie, 0x1_0800);
    instructions::disable_meie(&mut m);
    assert_eq!(m.csrs.mie, 0x1_0000);
    csr::enable_timer_interrupt(&mut m);
    assert_eq!(m.csrs.mie, 0x1_0080);
    csr::disable_timer_interrupt(&mut m);
    assert_eq!(m.csrs.mie, 0x1_0000);
    assert_eq!(m.journal.len(), 8);
    assert_eq!(m.journal[1], Effect::CsrWrite(Csr::MIE, 0x1_0088));
}

#[test]
fn global_interrupt_enable() {
    let mut m = machine();
    m.csrs.mstatus = 0x1800;
    assert!(instructions::irqs_disabled(&m));
    instructions::enable_irqs(&mut m);
    assert_eq!(m.csrs.mstatus, 0x1808);
    assert!(!instructions::irqs_disabled(&m));
    instructions::disable_irqs(&mut m);
    assert_eq!(m.csrs.mstatus, 0x1800);
    csr::enable_m_interrupts(&mut m);
    assert_eq!(m.csrs.mstatus, 0x1808);
    csr::disable_m_interrupts(&mut m);
    assert_eq!(m.csrs.mstatus, 0x1800);
    assert!(instructions::irqs_disabled(&m));
}

#[test]
fn the_hart_waits_only_with_interrupts_enabled() {
    let mut m = machine();
    instructions::wait_for_ints(&mut m);
    assert!(m.journal.is_empty());
    m.csrs.mstatus = 0x8;
    instructions::wait_for_ints(&mut m);
    assert_eq!(m.journal, vec![Effect::WaitForInterrupt]);
}

#[test]
fn journal_is_handed_out_once() {
    let mut m = machine();
    m.record(Effect::MachineReturn);
    m.record(Effect::WaitForInterrupt);
    assert_eq!(m.take_journal(), vec![Effect::MachineReturn, Effect::WaitForInterrupt]);
    assert!(m.journal.is_empty());
    assert!(m.take_journal().is_empty());
    assert_eq!(m.csrs.mhartid, 9);
}

#[test]
fn frame_pool_rejects_bad_shapes() {
    assert!(FramePool::new(0, 1, 0, 0).is_none());
    assert!(FramePool::new(0x1001, 1, 0, 0).is_none());
    assert!(FramePool::new(0x800, 1, 0, 0).is_none());
    assert!(FramePool::new(0x1000, usize::MAX, 0, 0).is_none());
    assert!(FramePool::new(0x1000, usize::MAX / PAGE_SIZE, 0, 0).is_none());
    assert!(FramePool::new(usize::MAX - 0xFFF, 1, 0, 0).is_none());
    assert!(FramePool::new(0x1000, 1, usize::MAX - 0x1FFF, 0).is_none());
    assert!(FramePool::new(0x1000, 0, usize::MAX - 0x1000, 0).is_some());
    assert!(FramePool::new(0x1000, 1, usize::MAX - 0x2000, 0).is_some());
    assert!(FramePool::new(0x1000, 0, 0, 0).is_some());
}

#[test]
fn frame_pool_hands_out_the_lowest_free_frame() {
    let mut pool = FramePool::new(0x4000, 3, 0x10_0000, 0x77).unwrap();
    assert_eq!(pool.alloc_page(), Some(0x4000));
    assert_eq!(pool.alloc_page(), Some(0x5000));
    assert_eq!(pool.alloc_page(), Some(0x6000));
    assert_eq!(pool.alloc_page(), None);
    assert_eq!(pool.alloc_page(), None);
    pool.dealloc_page(0x5000);
    assert!(pool.is_owned(0x4000));
    assert!(!pool.is_owned(0x5000));
    assert!(pool.is_owned(0x6000));
    assert!(!pool.is_owned(0x7000));
    assert!(!pool.is_owned(0x3000));
    assert!(!pool.is_owned(0x4001));
    assert!(!pool.is_owned(0));
    assert_eq!(pool.alloc_page(), Some(0x5000));
    pool.dealloc_page(0x4000);
    pool.dealloc_page(0x6000);
    assert_eq!(pool.alloc_page(), Some(0x4000));
    assert_eq!(pool.phys_to_virt(0x4000), 0x10_4000);
    assert_eq!(pool.phys_to_virt(0), 0x10_0000);
}

#[test]
fn frame_pool_fills_and_stores_within_one_frame() {
    let mut pool = FramePool::new(0x4000, 3, 0, 0x77).unwrap();
    pool.fill(0x5000, 0);
    pool.store_word(0x6000, 0xA1B2_C3D4);
    for offset in [0usize, 1, 2047, 4095] {
        assert_eq!(pool.load_byte(0x4000, offset), 0x77);
        assert_eq!(pool.load_byte(0x5000, offset), 0);
    }
    assert_eq!(pool.load_byte(0x6000, 0), 0xD4);
    assert_eq!(pool.load_byte(0x6000, 1), 0xC3);
    assert_eq!(pool.load_byte(0x6000, 2), 0xB2);
    assert_eq!(pool.load_byte(0x6000, 3), 0xA1);
    assert_eq!(pool.load_byte(0x6000, 4), 0x77);
    assert_eq!(pool.load_byte(0x6000, 4095), 0x77);
}

#[test]
fn machine_journals_memory_effects() {
    let mut m = machine();
    assert_eq!(m.alloc_page(), Some(0x8000_0000));
    m.fill_page(0x8000_0000, 9);
    m.store_word(0x8000_0000, 0x0102_0304);
    m.dealloc_page(0x8000_0000);
    assert_eq!(m.phys_to_virt(0x8000_0000), 0x8000_0000);
    assert_eq!(
        m.journal,
        vec![
            Effect::FrameAllocated(0x8000_0000),
            Effect::FrameFilled(0x8000_0000, 9),
            Effect::FrameWord(0x8000_0000, 0x0102_0304),
            Effect::FrameReleased(0x8000_0000),
        ]
    );
    assert_eq!(m.frames.load_byte(0x8000_0000, 0), 4);
    assert_eq!(m.frames.load_byte(0x8000_0000, 3), 1);
    assert_eq!(m.frames.load_byte(0x8000_0000, 4), 9);
    assert_eq!(m.alloc_page(), Some(0x8000_0000));
    assert_eq!(m.alloc_page(), Some(0x8000_1000));
    assert_eq!(m.alloc_page(), Some(0x8000_2000));
    let before = m.journal.len();
    assert_eq!(m.alloc_page(), None);
    assert_eq!(m.journal.len(), before);
}

#[test]
fn timer_init_schedules_the_first_tick() {
    let mut m = machine();
    timer::init(&mut m);
    assert_eq!(m.mtimecmp, 100_500);
    assert_eq!(m.journal, vec![Effect::TimecmpWrite(100_500)]);
    assert_eq!(timer::TIMER_INTERVAL, 100_000);
}

#[test]
fn tick_handler_counts_and_schedules() {
    let mut m = machine();
    let mut counter = TickCounter::new();
    assert_eq!(timer::current_ticks(&counter), 0);
    timer::handle_timer_interrupt(&mut counter, &mut m);
    assert_eq!(timer::current_ticks(&counter), 1);
    assert_eq!(m.mtimecmp, 100_500);
    m.mtime = 100_501;
    timer::handle_timer_interrupt(&mut counter, &mut m);
    assert_eq!(timer::current_ticks(&counter), 2);
    assert_eq!(m.mtimecmp, 200_501);
    assert_eq!(m.csrs.mie, 0);
}

#[test]
fn ticks_become_nanoseconds() {
    assert_eq!(timer::ticks_to_nanos(0), 0);
    assert_eq!(timer::ticks_to_nanos(1), 100);
    assert_eq!(timer::ticks_to_nanos(10_000_000), 1_000_000_000);
    assert_eq!(timer::ticks_to_nanos(12_345), 1_234_500);
    assert_eq!(timer::ticks_to_nanos(18_446_744_073), 1_844_674_407_300);
}

#[test]
fn current_time_is_the_tick_count_in_nanoseconds() {
    let time = timer::current_time(&TickCounter { ticks: 25_000_007 });
    assert_eq!(time.as_nanos(), 2_500_000_700);
    assert_eq!(time.as_secs(), 2);
    assert_eq!(time.subsec_nanos(), 500_000_700);
    assert_eq!(time, TimeValue::from_nanos(2_500_000_700));
    assert_eq!(timer::current_time(&TickCounter::new()), TimeValue::from_nanos(0));
    assert_eq!(TimeValue::from_nanos(u64::MAX).as_nanos(), u64::MAX as u128);
    assert_eq!(TimeValue::from_nanos(999_999_999).as_secs(), 0);
    assert_eq!(TimeValue::from_nanos(1_000_000_000).subsec_nanos(), 0);
}

#[test]
fn uart_init_writes_the_divisor_behind_the_latch() {
    let mut m = machine();
    uart::init(&mut m);
    let base = 0x1000_0000usize;
    assert_eq!(
        m.journal,
        vec![
            Effect::MmioWrite(base + 1, 0x00),
            Effect::MmioWrite(base + 3, 0x80),
            Effect::MmioWrite(base, 12),
            Effect::MmioWrite(base + 1, 0),
            Effect::MmioWrite(base + 3, 0x03),
            Effect::MmioWrite(base + 2, 0xC7),
            Effect::MmioWrite(base + 4, 0x0B),
        ]
    );
    let mut m = machine();
    let mut port = Uart16550::new(0x2000);
    port.init(&mut m, 300);
    assert_eq!(m.journal[2], Effect::MmioWrite(0x2000, 0x7F));
    assert_eq!(m.journal[3], Effect::MmioWrite(0x2001, 0x12));
}

#[test]
fn console_sends_only_when_the_transmitter_is_empty() {
    let mut m = machine();
    assert!(uart::console_putchar(&mut m, b'a'));
    assert_eq!(m.journal, vec![Effect::MmioWrite(0x1000_0000, b'a')]);
    m.serial.line_status = 0x01;
    assert!(!uart::console_putchar(&mut m, b'b'));
    assert_eq!(m.journal.len(), 1);
    m.serial.line_status = 0x61;
    assert!(uart::console_putchar(&mut m, b'c'));
    assert_eq!(m.journal[1], Effect::MmioWrite(0x1000_0000, b'c'));
}

#[test]
fn console_receives_only_when_a_byte_waits() {
    let mut m = machine();
    m.serial.receive = b'x';
    assert_eq!(uart::console_getchar(&m), None);
    m.serial.line_status = 0x21;
    assert_eq!(uart::console_getchar(&m), Some(b'x'));
    m.serial.line_status = 0xFE;
    assert_eq!(uart::console_getchar(&m), None);
    assert!(m.journal.is_empty());
}

#[test]
fn uart_registers_of_another_port_read_zero() {
    let mut m = machine();
    m.serial.receive = 5;
    let port = Uart16550::new(0x3000);
    assert_eq!(port.read_register(&m, 0), 0);
    assert_eq!(port.read_register(&m, 5), 0);
    assert_eq!(port.getchar(&m), None);
    assert_eq!(port.line_sts(&m).bits(), 0);
    let mut port = port;
    assert!(!port.putchar(&mut m, 1));
    port.write_register(&mut m, 7, 0xEE);
    assert_eq!(m.journal, vec![Effect::MmioWrite(0x3007, 0xEE)]);
    let console = Uart16550::new(uart::UART_BASE);
    assert_eq!(console.read_register(&m, 0), 5);
    assert_eq!(console.read_register(&m, 5), 0x20);
    assert_eq!(console.read_register(&m, 1), 0);
    assert!(console.line_sts(&m).contains(LineStsFlags::OUTPUT_EMPTY()));
    assert!(!console.line_sts(&m).contains(LineStsFlags::INPUT_FULL()));
    assert_eq!(LineStsFlags::from_bits_truncate(0xFF).bits(), 0x21);
    assert_eq!(m.mmio_read(0x1000_0005), 0x20);
}

#[test]
fn bring_up_installs_console_vector_and_tick() {
    let mut m = machine();
    boot::init_early(&mut m);
    assert_eq!(m.journal.len(), 7);
    boot::init(&mut m, 0x8000_0100);
    assert_eq!(m.csrs.mtvec, 0x8000_0100);
    assert_eq!(m.csrs.mie, 0x80);
    assert_eq!(m.csrs.mstatus, 0x8);
    assert_eq!(m.mtimecmp, 100_500);
    assert_eq!(m.journal.len(), 12);
    assert_eq!(m.journal[11], Effect::TimecmpWrite(100_500));
}

#[test]
fn firmware_hands_over_to_the_hypervisor() {
    let mut m = machine();
    m.csrs.satp = 0x8000_0000_0008_0000;
    boot::switch_to_hs_mode_simple(&mut m);
    assert_eq!(m.csrs.mepc, 0x8002_0000);
    assert_eq!(m.csrs.mstatus, 0x800);
    assert_eq!(m.csrs.satp, 0);
    assert_eq!(
        m.journal,
        vec![
            Effect::CsrWrite(Csr::MEPC, 0x8002_0000),
            Effect::CsrWrite(Csr::MSTATUS, 0x800),
            Effect::CsrWrite(Csr::SATP, 0),
            Effect::MachineReturn,
        ]
    );
}

#[test]
fn firmware_entry_installs_the_vector_and_hands_over() {
    let mut m = machine();
    m.csrs.mstatus = 0x1800;
    m.csrs.mie = 0x800;
    boot::start_rust(&mut m, 0x8000_0043);
    assert_eq!(
        m.journal,
        vec![
            Effect::CsrWrite(Csr::MTVEC, 0x8000_0040),
            Effect::CsrWrite(Csr::MSTATUS, 0x1808),
            Effect::CsrWrite(Csr::MEPC, 0x8002_0000),
            Effect::CsrWrite(Csr::MSTATUS, 0x800),
            Effect::CsrWrite(Csr::SATP, 0),
            Effect::MachineReturn,
        ]
    );
    assert_eq!(m.csrs.mtvec, 0x8000_0040);
    assert_eq!(m.csrs.mstatus, 0x800);
    assert_eq!(m.csrs.mie, 0x800);
    assert_eq!(m.mtimecmp, u64::MAX);
}
