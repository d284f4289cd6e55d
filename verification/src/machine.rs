//! The machine that the privileged code runs on, held as plain state: the
//! hart's register file, the core-local timer, the frame pool, and a journal
//! of every effect in the order in which it was performed.

use vstd::prelude::*;

use crate::csr::{Csr, CsrFile};
use crate::mm::{FramePool, FramePoolView};

verus! {

/// Physical address of the serial port's first register.
pub const SERIAL_BASE: usize = 0x1000_0000;

/// Line status of a serial port with nothing received and nothing left to
/// send.
pub const SERIAL_IDLE: u8 = 0x20;

/// One thing that was done to the machine, as the journal records it.
#[derive(Debug, Copy, Clone, PartialEq, Eq, Structural)]
pub enum Effect {
    /// A control and status register received a new value.
    CsrWrite(Csr, u64),
    /// The timer comparator received a new deadline.
    TimecmpWrite(u64),
    /// A device register at the given address received a byte.
    MmioWrite(usize, u8),
    /// The hart waits until an interrupt is pending.
    WaitForInterrupt,
    /// The hart returns from machine mode to the mode held in `mstatus`.
    MachineReturn,
    /// The frame at the given address was handed out.
    FrameAllocated(usize),
    /// The frame at the given address was taken back.
    FrameReleased(usize),
    /// Every byte of the frame at the given address was set to the given byte.
    FrameFilled(usize, u8),
    /// The first word of the frame at the given address was stored.
    FrameWord(usize, u32),
    /// The hypervisor extension was switched on, with its state region in
    /// the frame at the given address.
    ExtensionOn(usize),
    /// The hypervisor extension was switched off.
    ExtensionOff,
}

/// The serial port as the hart reads it.
#[derive(Debug, Copy, Clone, PartialEq, Eq, Structural)]
pub struct SerialPort {
    /// The byte in the receive buffer.
    pub receive: u8,
    /// The line status.
    pub line_status: u8,
}

/// The state of the machine.
pub struct Machine {
    /// The hart's control and status registers.
    pub csrs: CsrFile,
    /// The free-running counter of the core-local timer.
    pub mtime: u64,
    /// The comparator of the core-local timer.
    pub mtimecmp: u64,
    /// The serial port.
    pub serial: SerialPort,
    /// Physical memory handed out by the page.
    pub frames: FramePool,
    /// Every effect so far, oldest first.
    pub journal: Vec<Effect>,
}

/// What a [`Machine`] holds.
pub struct MachineView {
    pub csrs: CsrFile,
    pub mtime: u64,
    pub mtimecmp: u64,
    pub serial: SerialPort,
    pub frames: FramePoolView,
    pub journal: Seq<Effect>,
}

/// How many frames the journal shows as handed out.
pub open spec fn allocation_count(journal: Seq<Effect>) -> nat
    decreases journal.len(),
{
    if journal.len() == 0 {
        0
    } else {
        allocation_count(journal.drop_last()) + if journal.last() is FrameAllocated {
            1nat
        } else {
            0nat
        }
    }
}

/// How many frames the journal shows as taken back.
pub open spec fn release_count(journal: Seq<Effect>) -> nat
    decreases journal.len(),
{
    if journal.len() == 0 {
        0
    } else {
        release_count(journal.drop_last()) + if journal.last() is FrameReleased {
            1nat
        } else {
            0nat
        }
    }
}

impl MachineView {
    /// The machine's shape: that of its frame pool.
    pub open spec fn wf(self) -> bool {
        self.frames.wf()
    }

    /// The machine with `effect` appended to the journal.
    pub open spec fn record(self, effect: Effect) -> MachineView {
        MachineView { journal: self.journal.push(effect), ..self }
    }

    /// The machine after `value` was written to `csr`.
    pub open spec fn write_csr(self, csr: Csr, value: u64) -> MachineView {
        MachineView { csrs: self.csrs.set(csr, value), ..self }.record(
            Effect::CsrWrite(csr, value),
        )
    }

    /// The byte that a read of the device register at `addr` returns.
    pub open spec fn mmio_read(self, addr: usize) -> u8 {
        if addr == SERIAL_BASE {
            self.serial.receive
        } else if addr == SERIAL_BASE + 5 {
            self.serial.line_status
        } else {
            0
        }
    }

    /// The machine after `value` was written to the device register at
    /// `addr`.
    pub open spec fn mmio_write(self, addr: usize, value: u8) -> MachineView {
        self.record(Effect::MmioWrite(addr, value))
    }

    /// The machine after the timer comparator was set to `value`.
    pub open spec fn write_timecmp(self, value: u64) -> MachineView {
        MachineView { mtimecmp: value, ..self }.record(Effect::TimecmpWrite(value))
    }

    /// The machine after a frame was asked for: the lowest free frame is
    /// handed out, or nothing changes when there is none.
    pub open spec fn alloc_page(self) -> MachineView {
        match self.frames.alloc_result() {
            Some(paddr) => MachineView { frames: self.frames.after_alloc(), ..self }.record(
                Effect::FrameAllocated(paddr),
            ),
            None => self,
        }
    }

    /// The machine after the frame at `paddr` was given back.
    pub open spec fn dealloc_page(self, paddr: usize) -> MachineView {
        MachineView { frames: self.frames.after_dealloc(paddr), ..self }.record(
            Effect::FrameReleased(paddr),
        )
    }

    /// The machine after the frame at `paddr` was filled with `byte`.
    pub open spec fn fill_page(self, paddr: usize, byte: u8) -> MachineView {
        MachineView { frames: self.frames.after_fill(paddr, byte), ..self }.record(
            Effect::FrameFilled(paddr, byte),
        )
    }

    /// The machine after `word` was stored at the start of the frame at
    /// `paddr`.
    pub open spec fn store_word(self, paddr: usize, word: u32) -> MachineView {
        MachineView { frames: self.frames.after_store_word(paddr, word), ..self }.record(
            Effect::FrameWord(paddr, word),
        )
    }
}

impl View for Machine {
    type V = MachineView;

    open spec fn view(&self) -> MachineView {
        MachineView {
            csrs: self.csrs,
            mtime: self.mtime,
            mtimecmp: self.mtimecmp,
            serial: self.serial,
            frames: self.frames@,
            journal: self.journal@,
        }
    }
}

impl Machine {
    /// A machine with the given registers, timer reading and memory, a
    /// comparator that never matches, a serial port with nothing received
    /// and nothing left to send, and an empty journal.
    pub fn new(csrs: CsrFile, mtime: u64, frames: FramePool) -> (r: Machine)
        ensures
            r@ == (MachineView {
                csrs,
                mtime,
                mtimecmp: u64::MAX,
                serial: SerialPort { receive: 0, line_status: SERIAL_IDLE },
                frames: frames@,
                journal: Seq::empty(),
            }),
    {
        Machine {
            csrs,
            mtime,
            mtimecmp: u64::MAX,
            serial: SerialPort { receive: 0, line_status: SERIAL_IDLE },
            frames,
            journal: Vec::new(),
        }
    }

    /// The byte that a read of the device register at `addr` returns: the
    /// receive buffer and the line status at their places in the serial
    /// port's window, zero anywhere else.
    pub fn mmio_read(&self, addr: usize) -> (r: u8)
        ensures
            r == self@.mmio_read(addr),
    {
        if addr == SERIAL_BASE {
            self.serial.receive
        } else if addr == SERIAL_BASE + 5 {
            self.serial.line_status
        } else {
            0
        }
    }

    /// Writes `value` to the device register at `addr`.
    pub fn mmio_write(&mut self, addr: usize, value: u8)
        ensures
            final(self)@ == old(self)@.mmio_write(addr, value),
    {
        self.journal.push(Effect::MmioWrite(addr, value));
    }

    /// Appends `effect` to the journal.
    pub fn record(&mut self, effect: Effect)
        ensures
            final(self)@ == old(self)@.record(effect),
    {
        self.journal.push(effect);
    }

    /// Hands the journal out and leaves an empty one behind.
    pub fn take_journal(&mut self) -> (r: Vec<Effect>)
        ensures
            r@ == old(self)@.journal,
            final(self)@ == (MachineView { journal: Seq::empty(), ..old(self)@ }),
    {
        let mut taken: Vec<Effect> = Vec::new();
        core::mem::swap(&mut taken, &mut self.journal);
        taken
    }

    /// Asks the frame pool for one page. Returns its physical address, or
    /// `None` when the pool is exhausted.
    pub fn alloc_page(&mut self) -> (r: Option<usize>)
        requires
            old(self)@.wf(),
        ensures
            r == old(self)@.frames.alloc_result(),
            final(self)@ == old(self)@.alloc_page(),
            final(self)@.wf(),
    {
        proof {
            crate::mm::lemma_first_free(self@.frames.used, 0);
        }
        let r = self.frames.alloc_page();
        match r {
            Some(paddr) => {
                self.journal.push(Effect::FrameAllocated(paddr));
            },
            None => {},
        }
        r
    }

    /// Gives the page at `paddr` back to the frame pool.
    pub fn dealloc_page(&mut self, paddr: usize)
        requires
            old(self)@.wf(),
            old(self)@.frames.owned(paddr),
        ensures
            final(self)@ == old(self)@.dealloc_page(paddr),
            final(self)@.wf(),
    {
        self.frames.dealloc_page(paddr);
        self.journal.push(Effect::FrameReleased(paddr));
    }

    /// Sets every byte of the page at `paddr` to `byte`.
    pub fn fill_page(&mut self, paddr: usize, byte: u8)
        requires
            old(self)@.wf(),
            old(self)@.frames.is_frame(paddr),
        ensures
            final(self)@ == old(self)@.fill_page(paddr, byte),
            final(self)@.wf(),
    {
        self.frames.fill(paddr, byte);
        self.journal.push(Effect::FrameFilled(paddr, byte));
    }

    /// Stores `word` at the start of the page at `paddr`.
    pub fn store_word(&mut self, paddr: usize, word: u32)
        requires
            old(self)@.wf(),
            old(self)@.frames.is_frame(paddr),
        ensures
            final(self)@ == old(self)@.store_word(paddr, word),
            final(self)@.wf(),
    {
        self.frames.store_word(paddr, word);
        self.journal.push(Effect::FrameWord(paddr, word));
    }

    /// The virtual address through which physical address `paddr` is
    /// reached.
    pub fn phys_to_virt(&self, paddr: usize) -> (r: usize)
        requires
            paddr + self@.frames.virt_offset <= usize::MAX,
        ensures
            r == self@.frames.phys_to_virt(paddr),
    {
        self.frames.phys_to_virt(paddr)
    }
}

/// Appending an effect to the journal raises the count of allocations by one
/// when the effect is an allocation and leaves it otherwise.
pub proof fn lemma_allocation_count_push(journal: Seq<Effect>, effect: Effect)
    ensures
        allocation_count(journal.push(effect)) == allocation_count(journal) + if effect
            is FrameAllocated {
            1nat
        } else {
            0nat
        },
        release_count(journal.push(effect)) == release_count(journal) + if effect
            is FrameReleased {
            1nat
        } else {
            0nat
        },
{
    assert(journal.push(effect).drop_last() =~= journal);
}

} // verus!
