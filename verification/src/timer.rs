//! The periodic tick: a counter of timer interrupts, the deadline of the
//! next one, and the time that the count stands for.

use vstd::prelude::*;

use crate::csr;
use crate::machine::{Machine, MachineView};

verus! {

/// Timer ticks per second
pub const TICKS_PER_SEC: u64 = 100;

/// CPU clock frequency in Hz (10MHz for QEMU)
pub const CLOCK_FREQ: u64 = 10_000_000;

/// Interval between timer interrupts in CPU cycles
pub const TIMER_INTERVAL: u64 = CLOCK_FREQ / TICKS_PER_SEC;

/// Nanoseconds in one second.
pub const NANOS_PER_SEC: u64 = 1_000_000_000;

/// The number of timer interrupts handled so far.
#[derive(Debug, Clone, Copy, PartialEq, Eq, Structural)]
pub struct TickCounter {
    pub ticks: u64,
}

/// A span of time, in whole seconds and the nanoseconds beyond them.
#[derive(Debug, Clone, Copy, PartialEq, Eq, Structural)]
pub struct TimeValue {
    secs: u64,
    nanos: u32,
}

/// `value + step` in 64 bits: the sum, less two to the 64th when it does
/// not fit.
pub open spec fn wrapping_sum(value: u64, step: u64) -> u64 {
    if value + step > u64::MAX {
        (value + step - 0x1_0000_0000_0000_0000) as u64
    } else {
        (value + step) as u64
    }
}

/// The deadline of the tick that follows the time `now`.
pub open spec fn next_deadline(now: u64) -> u64 {
    wrapping_sum(now, TIMER_INTERVAL)
}

/// The number of nanoseconds that `ticks` clock cycles last.
pub open spec fn spec_ticks_to_nanos(ticks: u64) -> int {
    ticks * NANOS_PER_SEC / (CLOCK_FREQ as int)
}

/// The machine after the next tick was scheduled: the comparator holds the
/// current time plus one interval.
pub open spec fn spec_schedule_tick(machine: MachineView) -> MachineView {
    machine.write_timecmp(next_deadline(machine.mtime))
}

impl TickCounter {
    /// A counter that has seen no tick.
    pub fn new() -> (r: TickCounter)
        ensures
            r.ticks == 0,
    {
        TickCounter { ticks: 0 }
    }
}

impl View for TimeValue {
    type V = nat;

    /// The span in nanoseconds.
    closed spec fn view(&self) -> nat {
        (self.secs * NANOS_PER_SEC + self.nanos) as nat
    }
}

impl TimeValue {
    #[verifier::type_invariant]
    spec fn nanos_below_a_second(self) -> bool {
        self.nanos < NANOS_PER_SEC
    }

    /// The span of `nanos` nanoseconds.
    pub fn from_nanos(nanos: u64) -> (r: TimeValue)
        ensures
            r@ == nanos,
    {
        let secs: u64 = nanos / NANOS_PER_SEC;
        let rest: u64 = nanos % NANOS_PER_SEC;
        TimeValue { secs, nanos: rest as u32 }
    }

    /// The whole seconds of the span.
    pub fn as_secs(&self) -> (r: u64)
        ensures
            r == self@ / (NANOS_PER_SEC as nat),
    {
        proof {
            use_type_invariant(self);
        }
        self.secs
    }

    /// The nanoseconds of the span beyond its whole seconds.
    pub fn subsec_nanos(&self) -> (r: u32)
        ensures
            r == self@ % (NANOS_PER_SEC as nat),
    {
        proof {
            use_type_invariant(self);
        }
        self.nanos
    }

    /// The span in nanoseconds.
    pub fn as_nanos(&self) -> (r: u128)
        ensures
            r == self@,
    {
        proof {
            use_type_invariant(self);
        }
        let secs: u128 = self.secs as u128;
        let nanos: u128 = self.nanos as u128;
        secs * 1_000_000_000u128 + nanos
    }
}

/// Initialize the timer by setting the first timer interrupt
pub fn init(machine: &mut Machine)
    ensures
        final(machine)@ == spec_schedule_tick(old(machine)@),
{
    let deadline: u64 = read_time(machine).wrapping_add(TIMER_INTERVAL);
    write_mtimecmp(machine, deadline);
}

/// Handle timer interrupt - increment counter and set next interrupt
pub fn handle_timer_interrupt(counter: &mut TickCounter, machine: &mut Machine)
    ensures
        final(counter).ticks == wrapping_sum(old(counter).ticks, 1),
        final(machine)@ == spec_schedule_tick(old(machine)@),
{
    counter.ticks = counter.ticks.wrapping_add(1);

    // Set next timer interrupt
    let deadline: u64 = read_time(machine).wrapping_add(TIMER_INTERVAL);
    write_mtimecmp(machine, deadline);
}

/// Get the current number of ticks
pub fn current_ticks(counter: &TickCounter) -> (ticks: u64)
    ensures
        ticks == counter.ticks,
{
    counter.ticks
}

/// Convert ticks to nanoseconds
pub fn ticks_to_nanos(ticks: u64) -> (nanos: u64)
    requires
        ticks * NANOS_PER_SEC <= u64::MAX,
    ensures
        nanos == spec_ticks_to_nanos(ticks),
        nanos == ticks * 100,
{
    ticks * 1_000_000_000 / CLOCK_FREQ
}

/// The time that the tick count stands for.
pub fn current_time(counter: &TickCounter) -> (time: TimeValue)
    requires
        counter.ticks * NANOS_PER_SEC <= u64::MAX,
    ensures
        time@ == spec_ticks_to_nanos(counter.ticks),
{
    TimeValue::from_nanos(ticks_to_nanos(current_ticks(counter)))
}

/// Read the current time from CLINT mtime register
fn read_time(machine: &Machine) -> (time: u64)
    ensures
        time == machine.mtime,
{
    csr::read_time(machine)
}

/// Write to CLINT mtimecmp register to set next timer interrupt
fn write_mtimecmp(machine: &mut Machine, deadline: u64)
    ensures
        final(machine)@ == old(machine)@.write_timecmp(deadline),
{
    csr::write_timecmp(machine, deadline);
}

/// While the sum fits in 64 bits, the deadline lies one interval after the
/// current time, and so strictly after it.
pub proof fn lemma_deadline_after_now(now: u64)
    requires
        now + TIMER_INTERVAL <= u64::MAX,
    ensures
        next_deadline(now) == now + TIMER_INTERVAL,
        next_deadline(now) > now,
{
}

} // verus!
