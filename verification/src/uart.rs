//! UART 16550 compatible MMIO driver for QEMU RISC-V.

use vstd::prelude::*;

use crate::machine::{Effect, Machine, MachineView, SERIAL_BASE};

verus! {

/// Physical address of the console's registers.
pub const UART_BASE: usize = SERIAL_BASE;

/// Clock that the baud rate is divided from, in Hz.
pub const UART_CLOCK_FREQ: usize = 22_729_200;

/// Baud rate of the console.
pub const CONSOLE_BAUD_RATE: usize = 115200;

/// Line status bit: a received byte waits in the buffer.
pub const LINE_STS_INPUT_FULL: u8 = 1;

/// Line status bit: the transmitter takes the next byte.
pub const LINE_STS_OUTPUT_EMPTY: u8 = 0x20;

/// Line status flags
#[derive(Debug, Clone, Copy, PartialEq, Eq, Structural)]
pub struct LineStsFlags {
    bits: u8,
}

/// A 16550 at a given address.
pub struct Uart16550 {
    base: usize,
}

/// The divisor that gives `baud_rate`.
pub open spec fn spec_divisor(baud_rate: usize) -> int {
    UART_CLOCK_FREQ as int / (16 * baud_rate)
}

/// The low byte of `value`.
pub open spec fn low_byte(value: usize) -> u8 {
    (value & 0xff) as u8
}

/// The second byte of `value`.
pub open spec fn high_byte(value: usize) -> u8 {
    ((value >> 8) & 0xff) as u8
}

/// The register writes that set a 16550 at `base` up for `baud_rate`, in
/// order: interrupts off, divisor latch open, divisor low and high, latch
/// closed with eight data bits, FIFO on and cleared, terminal ready.
pub open spec fn init_sequence(base: usize, baud_rate: usize) -> Seq<Effect> {
    let divisor = spec_divisor(baud_rate) as usize;
    seq![
        Effect::MmioWrite((base + 1) as usize, 0x00),
        Effect::MmioWrite((base + 3) as usize, 0x80),
        Effect::MmioWrite(base, low_byte(divisor)),
        Effect::MmioWrite((base + 1) as usize, high_byte(divisor)),
        Effect::MmioWrite((base + 3) as usize, 0x03),
        Effect::MmioWrite((base + 2) as usize, 0xC7),
        Effect::MmioWrite((base + 4) as usize, 0x0B),
    ]
}

impl LineStsFlags {
    /// The flags as bits of the line status register.
    pub closed spec fn spec_bits(self) -> u8 {
        self.bits
    }

    /// A received byte waits in the buffer.
    #[allow(non_snake_case)]
    pub fn INPUT_FULL() -> (r: LineStsFlags)
        ensures
            r.spec_bits() == LINE_STS_INPUT_FULL,
    {
        LineStsFlags { bits: LINE_STS_INPUT_FULL }
    }

    /// The transmitter takes the next byte.
    #[allow(non_snake_case)]
    pub fn OUTPUT_EMPTY() -> (r: LineStsFlags)
        ensures
            r.spec_bits() == LINE_STS_OUTPUT_EMPTY,
    {
        LineStsFlags { bits: LINE_STS_OUTPUT_EMPTY }
    }

    /// The flags as bits of the line status register.
    pub fn bits(&self) -> (r: u8)
        ensures
            r == self.spec_bits(),
    {
        self.bits
    }

    /// The flags among `bits`; bits that stand for no flag are dropped.
    pub fn from_bits_truncate(bits: u8) -> (r: LineStsFlags)
        ensures
            r.spec_bits() == bits & (LINE_STS_INPUT_FULL | LINE_STS_OUTPUT_EMPTY),
    {
        LineStsFlags { bits: bits & (LINE_STS_INPUT_FULL | LINE_STS_OUTPUT_EMPTY) }
    }

    /// Whether every flag of `other` is among these flags.
    pub fn contains(&self, other: LineStsFlags) -> (r: bool)
        ensures
            r == (self.spec_bits() & other.spec_bits() == other.spec_bits()),
    {
        (self.bits & other.bits) == other.bits
    }
}

impl View for Uart16550 {
    type V = usize;

    /// The address of the port's first register.
    closed spec fn view(&self) -> usize {
        self.base
    }
}

impl Uart16550 {
    /// Whether all eight registers of the port have an address.
    pub open spec fn wf(self) -> bool {
        self@ + 7 <= usize::MAX
    }

    /// Whether the transmitter of the port takes a byte.
    pub open spec fn can_send(self, machine: MachineView) -> bool {
        machine.mmio_read((self@ + 5) as usize) & LINE_STS_OUTPUT_EMPTY == LINE_STS_OUTPUT_EMPTY
    }

    /// Whether a received byte waits in the port.
    pub open spec fn can_receive(self, machine: MachineView) -> bool {
        machine.mmio_read((self@ + 5) as usize) & LINE_STS_INPUT_FULL == LINE_STS_INPUT_FULL
    }

    /// The port whose first register is at `base`.
    pub fn new(base: usize) -> (r: Uart16550)
        ensures
            r@ == base,
    {
        Self { base }
    }

    /// Reads the port's register number `offset`.
    pub fn read_register(&self, machine: &Machine, offset: usize) -> (r: u8)
        requires
            self.wf(),
            offset < 8,
        ensures
            r == machine@.mmio_read((self@ + offset) as usize),
    {
        machine.mmio_read(self.base + offset)
    }

    /// Writes `value` to the port's register number `offset`.
    pub fn write_register(&mut self, machine: &mut Machine, offset: usize, value: u8)
        requires
            old(self).wf(),
            offset < 8,
        ensures
            final(self)@ == old(self)@,
            final(machine)@ == old(machine)@.mmio_write((old(self)@ + offset) as usize, value),
    {
        machine.mmio_write(self.base + offset, value);
    }

    /// Sets the port up for `baud_rate`, eight data bits, and a FIFO.
    pub fn init(&mut self, machine: &mut Machine, baud_rate: usize)
        requires
            old(self).wf(),
            0 < baud_rate,
            16 * baud_rate <= usize::MAX,
        ensures
            final(self)@ == old(self)@,
            final(machine)@ == (MachineView {
                journal: old(machine)@.journal + init_sequence(old(self)@, baud_rate),
                ..old(machine)@
            }),
    {
        let clock_freq: usize = 22_729_200usize;
        let divisor: usize = clock_freq / (16 * baud_rate);

        // Disable interrupts
        self.write_register(machine, 1, 0x00);

        // Enable DLAB
        self.write_register(machine, 3, 0x80);

        // Set baud rate divisor
        self.write_register(machine, 0, (divisor & 0xff) as u8);
        self.write_register(machine, 1, ((divisor >> 8) & 0xff) as u8);

        // Disable DLAB and set data word length to 8 bits
        self.write_register(machine, 3, 0x03);

        // Enable FIFO, clear TX/RX queues and set interrupt watermark at 14 bytes
        self.write_register(machine, 2, 0xC7);

        // Mark data terminal ready, signal request to send
        self.write_register(machine, 4, 0x0B);
        assert(machine@.journal =~= old(machine)@.journal + init_sequence(old(self)@, baud_rate));
    }

    /// The flags of the port's line status.
    pub fn line_sts(&self, machine: &Machine) -> (r: LineStsFlags)
        requires
            self.wf(),
        ensures
            r.spec_bits() == machine@.mmio_read((self@ + 5) as usize) & (LINE_STS_INPUT_FULL
                | LINE_STS_OUTPUT_EMPTY),
    {
        LineStsFlags::from_bits_truncate(self.read_register(machine, 5))
    }

    /// Sends `c` if the transmitter takes a byte. Returns whether it did;
    /// when it did not nothing was written, and the caller tries again.
    pub fn putchar(&mut self, machine: &mut Machine, c: u8) -> (sent: bool)
        requires
            old(self).wf(),
        ensures
            final(self)@ == old(self)@,
            sent == old(self).can_send(old(machine)@),
            final(machine)@ == if sent {
                old(machine)@.mmio_write(old(self)@, c)
            } else {
                old(machine)@
            },
    {
        let status: u8 = machine.mmio_read(self.base + 5);
        assert((status & (LINE_STS_INPUT_FULL | LINE_STS_OUTPUT_EMPTY)) & LINE_STS_OUTPUT_EMPTY
            == status & LINE_STS_OUTPUT_EMPTY) by (bit_vector);
        if !self.line_sts(machine).contains(LineStsFlags::OUTPUT_EMPTY()) {
            return false;
        }
        self.write_register(machine, 0, c);
        true
    }

    /// The byte that waits in the port, if one does.
    pub fn getchar(&self, machine: &Machine) -> (r: Option<u8>)
        requires
            self.wf(),
        ensures
            r == if self.can_receive(machine@) {
                Some(machine@.mmio_read(self@))
            } else {
                None
            },
    {
        let status: u8 = machine.mmio_read(self.base + 5);
        assert((status & (LINE_STS_INPUT_FULL | LINE_STS_OUTPUT_EMPTY)) & LINE_STS_INPUT_FULL
            == status & LINE_STS_INPUT_FULL) by (bit_vector);
        if self.line_sts(machine).contains(LineStsFlags::INPUT_FULL()) {
            Some(self.read_register(machine, 0))
        } else {
            None
        }
    }
}

/// Sends `c` to the console if its transmitter takes a byte, and returns
/// whether it did.
pub fn console_putchar(machine: &mut Machine, c: u8) -> (sent: bool)
    ensures
        sent == (old(machine).serial.line_status & LINE_STS_OUTPUT_EMPTY == LINE_STS_OUTPUT_EMPTY),
        final(machine)@ == if sent {
            old(machine)@.mmio_write(UART_BASE, c)
        } else {
            old(machine)@
        },
{
    let mut uart: Uart16550 = Uart16550::new(UART_BASE);
    uart.putchar(machine, c)
}

/// The byte that waits in the console, if one does.
pub fn console_getchar(machine: &Machine) -> (r: Option<u8>)
    ensures
        r == if machine.serial.line_status & LINE_STS_INPUT_FULL == LINE_STS_INPUT_FULL {
            Some(machine.serial.receive)
        } else {
            None
        },
{
    let uart: Uart16550 = Uart16550::new(UART_BASE);
    uart.getchar(machine)
}

/// Sets the console up for its baud rate.
pub fn init(machine: &mut Machine)
    ensures
        final(machine)@ == (MachineView {
            journal: old(machine)@.journal + init_sequence(UART_BASE, CONSOLE_BAUD_RATE),
            ..old(machine)@
        }),
{
    let mut uart: Uart16550 = Uart16550::new(UART_BASE);
    uart.init(machine, 115200);
}

} // verus!
