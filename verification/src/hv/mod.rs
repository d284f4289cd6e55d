//! Host per-CPU state of the virtualization layer.

use vstd::prelude::*;

use crate::hext::{has_hardware_support, spec_has_hardware_support, HextPerCpuState, HextStateView};
use crate::machine::{Machine, MachineView};

pub mod error;

pub use error::{RvmError, RvmResult};

verus! {

/// Host per-CPU states to run the guest.
pub struct RvmPerCpu {
    _cpu_id: usize,
    hext: HextPerCpuState,
}

/// What an [`RvmPerCpu`] holds.
pub struct RvmPerCpuView {
    pub cpu_id: usize,
    pub hext: HextStateView,
}

/// What a run of the virtualization layer on one hart found.
#[derive(Debug, Clone, Copy)]
pub struct RunReport {
    /// Whether the hart has the hypervisor extension.
    pub hardware_support: bool,
    /// How switching the extension on ended.
    pub hardware_enable: RvmResult,
}

/// The machine after a run: the extension is switched on for a fresh
/// record, and the record is then torn down.
pub open spec fn spec_run_machine(machine: MachineView) -> MachineView {
    let fresh = HextStateView::fresh();
    fresh.enable_state(machine).teardown_machine(fresh.enable_machine(machine))
}

impl View for RvmPerCpu {
    type V = RvmPerCpuView;

    closed spec fn view(&self) -> RvmPerCpuView {
        RvmPerCpuView { cpu_id: self._cpu_id, hext: self.hext@ }
    }
}

impl RvmPerCpu {
    /// Create an uninitialized instance.
    pub fn new(cpu_id: usize) -> (r: RvmPerCpu)
        ensures
            r@ == (RvmPerCpuView { cpu_id, hext: HextStateView::fresh() }),
    {
        Self { _cpu_id: cpu_id, hext: HextPerCpuState::new() }
    }

    /// The number of the CPU that the state belongs to.
    pub fn cpu_id(&self) -> (r: usize)
        ensures
            r == self@.cpu_id,
    {
        self._cpu_id
    }

    /// Whether the current CPU has hardware virtualization enabled.
    pub fn is_enabled(&self) -> (r: bool)
        ensures
            r == self@.hext.enabled,
    {
        self.hext.is_enabled()
    }

    /// Enable hardware virtualization on the current CPU.
    pub fn hardware_enable(&mut self, machine: &mut Machine) -> (r: RvmResult)
        requires
            old(machine)@.wf(),
            old(self)@.hext.wf(old(machine)@),
        ensures
            r == old(self)@.hext.enable_result(old(machine)@),
            final(self)@ == (RvmPerCpuView {
                hext: old(self)@.hext.enable_state(old(machine)@),
                ..old(self)@
            }),
            final(machine)@ == old(self)@.hext.enable_machine(old(machine)@),
            final(machine)@.wf(),
            final(self)@.hext.wf(final(machine)@),
    {
        self.hext.hardware_enable(machine)
    }

    /// Disable hardware virtualization on the current CPU.
    pub fn hardware_disable(&mut self, machine: &mut Machine) -> (r: RvmResult)
        ensures
            r is Ok,
            final(self)@ == (RvmPerCpuView { hext: old(self)@.hext.disable_state(), ..old(self)@ }),
            final(machine)@ == old(self)@.hext.disable_machine(old(machine)@),
    {
        self.hext.hardware_disable(machine)
    }

    /// Ends the state's life: hardware virtualization is disabled if it is
    /// enabled, and the frame behind it is given back after that.
    pub fn teardown(self, machine: &mut Machine)
        requires
            old(machine)@.wf(),
            self@.hext.wf(old(machine)@),
        ensures
            final(machine)@ == self@.hext.teardown_machine(old(machine)@),
            final(machine)@.wf(),
    {
        self.hext.teardown(machine);
    }
}

/// Runs the virtualization layer on hart 0: probes for the hypervisor
/// extension, switches it on for a fresh per-CPU state, and tears the state
/// down again. Reports what the probe and the switch returned.
pub fn run(machine: &mut Machine) -> (r: RunReport)
    requires
        old(machine)@.wf(),
    ensures
        r.hardware_support == spec_has_hardware_support(old(machine)@),
        r.hardware_enable == HextStateView::fresh().enable_result(old(machine)@),
        final(machine)@ == spec_run_machine(old(machine)@),
        final(machine)@.wf(),
{
    let hardware_support: bool = has_hardware_support(machine);

    let mut percpu: RvmPerCpu = RvmPerCpu::new(0);
    let res: RvmResult = percpu.hardware_enable(machine);
    percpu.teardown(machine);
    RunReport { hardware_support, hardware_enable: res }
}

} // verus!
