//! The per-hart lifecycle of the hypervisor extension: probing for it,
//! switching it on with a frame to back its state, switching it off, and
//! tearing the record down.

use vstd::prelude::*;

use crate::hv::error::{RvmError, RvmResult};
use crate::machine::{
    allocation_count, lemma_allocation_count_push, release_count, Effect, Machine, MachineView,
};

pub mod structs;

pub use structs::{HextRegion, MachineISA, MachineISAFlags, PhysFrame};

verus! {

/// Revision id in the header of the region that backs the extension.
pub const REGION_REVISION_ID: u32 = 0;

/// Per-hart state of the hypervisor extension.
pub struct HextPerCpuState {
    enabled: bool,
    hext_region: HextRegion,
}

/// What a [`HextPerCpuState`] holds: whether the extension is on, and the
/// physical address of the frame that backs it, zero while there is none.
pub struct HextStateView {
    pub enabled: bool,
    pub region: usize,
}

/// Whether the ISA register of the machine shows the hypervisor extension.
pub open spec fn spec_has_hardware_support(machine: MachineView) -> bool {
    machine.csrs.misa & structs::MISA_H == structs::MISA_H
}

impl HextStateView {
    /// The state of a record that was never enabled.
    pub open spec fn fresh() -> HextStateView {
        HextStateView { enabled: false, region: 0 }
    }

    /// Whether the region is absent or backed by a frame that the machine's
    /// pool has handed out.
    pub open spec fn wf(self, machine: MachineView) -> bool {
        self.region == 0 || machine.frames.owned(self.region)
    }

    /// What enabling returns: `Unsupported` without the extension,
    /// `OutOfMemory` when a frame is needed and none is left, success
    /// otherwise.
    pub open spec fn enable_result(self, machine: MachineView) -> RvmResult {
        if !spec_has_hardware_support(machine) {
            Err(RvmError::Unsupported)
        } else if self.region == 0 && machine.frames.alloc_result() is None {
            Err(RvmError::OutOfMemory)
        } else {
            Ok(())
        }
    }

    /// The record after enabling: unchanged on failure; on success the
    /// extension is on, in the region that was there or in a fresh one.
    pub open spec fn enable_state(self, machine: MachineView) -> HextStateView {
        if self.enable_result(machine) is Err {
            self
        } else if self.region != 0 {
            HextStateView { enabled: true, ..self }
        } else {
            HextStateView { enabled: true, region: machine.frames.alloc_result().unwrap() }
        }
    }

    /// The machine after enabling: unchanged on failure; on success a
    /// region is set up first when the record has none, and the extension
    /// is then switched on.
    pub open spec fn enable_machine(self, machine: MachineView) -> MachineView {
        if self.enable_result(machine) is Err {
            machine
        } else if self.region != 0 {
            machine.record(Effect::ExtensionOn(self.region))
        } else {
            HextRegion::spec_new(machine, REGION_REVISION_ID, false).record(
                Effect::ExtensionOn(machine.frames.alloc_result().unwrap()),
            )
        }
    }

    /// The record after disabling: the extension is off, the region stays.
    pub open spec fn disable_state(self) -> HextStateView {
        HextStateView { enabled: false, ..self }
    }

    /// The machine after disabling: the extension is switched off.
    pub open spec fn disable_machine(self, machine: MachineView) -> MachineView {
        machine.record(Effect::ExtensionOff)
    }

    /// The machine after the record was torn down: the extension is
    /// switched off first if it was on, and the region's frame, if there is
    /// one, is given back after that.
    pub open spec fn teardown_machine(self, machine: MachineView) -> MachineView {
        let quiet = if self.enabled {
            self.disable_machine(machine)
        } else {
            machine
        };
        PhysFrame::spec_release(self.region, quiet)
    }
}

/// Whether the hart has the hypervisor extension. Reads the ISA register and
/// changes nothing.
pub fn has_hardware_support(machine: &Machine) -> (r: bool)
    ensures
        r == spec_has_hardware_support(machine@),
{
    let flags: MachineISAFlags = MachineISA::read(machine);
    let h: MachineISAFlags = MachineISAFlags::H();
    let misa: u64 = machine.csrs.misa;
    assert((misa & structs::MISA_H) & structs::MISA_H == misa & structs::MISA_H) by (bit_vector);
    flags.contains(h)
}

impl View for HextPerCpuState {
    type V = HextStateView;

    closed spec fn view(&self) -> HextStateView {
        HextStateView { enabled: self.enabled, region: self.hext_region@ }
    }
}

impl HextPerCpuState {
    /// A record with the extension off and no region.
    pub fn new() -> (r: HextPerCpuState)
        ensures
            r@ == HextStateView::fresh(),
    {
        HextPerCpuState { enabled: false, hext_region: HextRegion::uninit() }
    }

    /// Whether the extension is switched on.
    pub fn is_enabled(&self) -> (r: bool)
        ensures
            r == self@.enabled,
    {
        self.enabled
    }

    /// The physical address of the frame that backs the extension, zero
    /// while there is none.
    pub fn region_addr(&self) -> (r: usize)
        ensures
            r == self@.region,
    {
        self.hext_region.phys_addr()
    }

    /// Switches the extension on. Fails with `Unsupported` when the hart
    /// lacks it. A zero-filled frame is taken to back it only when the
    /// record owns none yet; failing that, the call fails with
    /// `OutOfMemory`. On failure nothing changes.
    pub fn hardware_enable(&mut self, machine: &mut Machine) -> (r: RvmResult)
        requires
            old(machine)@.wf(),
            old(self)@.wf(old(machine)@),
        ensures
            r == old(self)@.enable_result(old(machine)@),
            final(self)@ == old(self)@.enable_state(old(machine)@),
            final(machine)@ == old(self)@.enable_machine(old(machine)@),
            final(machine)@.wf(),
            final(self)@.wf(final(machine)@),
    {
        if !has_hardware_support(machine) {
            return Err(RvmError::Unsupported);
        }
        if self.hext_region.phys_addr() == 0 {
            let region: HextRegion = match HextRegion::new(machine, REGION_REVISION_ID, false) {
                Ok(region) => region,
                Err(e) => {
                    return Err(e);
                },
            };
            self.hext_region = region;
        }
        self.enabled = true;
        machine.record(Effect::ExtensionOn(self.hext_region.phys_addr()));

        Ok(())
    }

    /// Switches the extension off. The frame that backs it is kept for the
    /// next time.
    pub fn hardware_disable(&mut self, machine: &mut Machine) -> (r: RvmResult)
        ensures
            r is Ok,
            final(self)@ == old(self)@.disable_state(),
            final(machine)@ == old(self)@.disable_machine(old(machine)@),
    {
        self.enabled = false;
        machine.record(Effect::ExtensionOff);

        Ok(())
    }

    /// Ends the record's life: switches the extension off if it is on, and
    /// only then gives the frame that backs it, if any, back to the pool.
    pub fn teardown(self, machine: &mut Machine)
        requires
            old(machine)@.wf(),
            self@.wf(old(machine)@),
        ensures
            final(machine)@ == self@.teardown_machine(old(machine)@),
            final(machine)@.wf(),
    {
        let mut state = self;
        if state.is_enabled() {
            let _ = state.hardware_disable(machine);
        }
        state.hext_region.release(machine);
    }
}

/// Without the hypervisor extension, enabling fails with `Unsupported`,
/// changes neither the record nor the machine, and hands out no frame.
pub proof fn lemma_enable_unsupported(state: HextStateView, machine: MachineView)
    requires
        !spec_has_hardware_support(machine),
    ensures
        state.enable_result(machine) == Err::<(), RvmError>(RvmError::Unsupported),
        state.enable_state(machine) == state,
        state.enable_machine(machine) == machine,
        allocation_count(state.enable_machine(machine).journal) == allocation_count(
            machine.journal,
        ),
{
}

/// One enabling hands out at most one frame, and none at all when the
/// record already has a region or the call fails.
pub proof fn lemma_enable_allocates_at_most_once(state: HextStateView, machine: MachineView)
    ensures
        allocation_count(state.enable_machine(machine).journal) == allocation_count(
            machine.journal,
        ) + if state.enable_result(machine) is Ok && state.region == 0 {
            1nat
        } else {
            0nat
        },
        state.enable_result(machine) is Ok ==> state.enable_state(machine).enabled,
        state.enable_result(machine) is Ok && machine.wf() ==> state.enable_state(machine).region
            != 0,
        state.region != 0 ==> state.enable_state(machine).region == state.region
            && state.enable_machine(machine).frames == machine.frames,
{
    if state.enable_result(machine) is Ok {
        if state.region != 0 {
            lemma_allocation_count_push(machine.journal, Effect::ExtensionOn(state.region));
        } else {
            let paddr = machine.frames.alloc_result().unwrap();
            let m1 = machine.alloc_page();
            let m2 = m1.fill_page(paddr, 0);
            let m3 = m2.store_word(paddr, structs::region_header(REGION_REVISION_ID, false));
            lemma_allocation_count_push(machine.journal, Effect::FrameAllocated(paddr));
            lemma_allocation_count_push(m1.journal, Effect::FrameFilled(paddr, 0));
            lemma_allocation_count_push(
                m2.journal,
                Effect::FrameWord(paddr, structs::region_header(REGION_REVISION_ID, false)),
            );
            lemma_allocation_count_push(m3.journal, Effect::ExtensionOn(paddr));
            if machine.wf() {
                structs::lemma_alloc_owned(machine);
            }
        }
    }
}

/// Enabling twice in a row hands out at most one frame: the second call
/// finds the region of the first and takes no other.
pub proof fn lemma_enable_twice(state: HextStateView, machine: MachineView)
    requires
        machine.wf(),
    ensures
        ({
            let first_state = state.enable_state(machine);
            let first_machine = state.enable_machine(machine);
            let second_machine = first_state.enable_machine(first_machine);
            &&& allocation_count(second_machine.journal) <= allocation_count(machine.journal) + 1
            &&& state.enable_result(machine) is Ok ==> second_machine.frames
                == first_machine.frames && first_state.enable_state(first_machine).region
                == first_state.region
        }),
{
    let first_state = state.enable_state(machine);
    let first_machine = state.enable_machine(machine);
    lemma_enable_allocates_at_most_once(state, machine);
    lemma_enable_allocates_at_most_once(first_state, first_machine);
}

/// After the extension was switched on and off again, switching it on once
/// more succeeds as long as the hart still shows the extension, and it
/// takes the region of the first time: no frame is handed out, and the pool
/// is as the first enabling left it.
pub proof fn lemma_enable_after_disable_reuses_region(state: HextStateView, machine: MachineView)
    requires
        machine.wf(),
        state.enable_result(machine) is Ok,
    ensures
        ({
            let enabled = state.enable_state(machine);
            let first = state.enable_machine(machine);
            let disabled = enabled.disable_state();
            let quiet = enabled.disable_machine(first);
            &&& disabled.enable_result(quiet) is Ok
            &&& disabled.enable_state(quiet) == enabled
            &&& disabled.enable_machine(quiet).frames == first.frames
            &&& allocation_count(disabled.enable_machine(quiet).journal) == allocation_count(
                first.journal,
            )
            &&& disabled.enable_machine(quiet).journal == first.journal + seq![
                Effect::ExtensionOff,
                Effect::ExtensionOn(enabled.region),
            ]
        }),
{
    let enabled = state.enable_state(machine);
    let first = state.enable_machine(machine);
    let disabled = enabled.disable_state();
    let quiet = enabled.disable_machine(first);
    lemma_enable_allocates_at_most_once(state, machine);
    lemma_allocation_count_push(first.journal, Effect::ExtensionOff);
    lemma_enable_allocates_at_most_once(disabled, quiet);
    assert(disabled.enable_machine(quiet).journal =~= first.journal + seq![
        Effect::ExtensionOff,
        Effect::ExtensionOn(enabled.region),
    ]);
}

/// Disabling gives no frame back: the record keeps its region, the pool is
/// as it was, and the one thing that happens is that the extension is
/// switched off.
pub proof fn lemma_disable_keeps_frame(state: HextStateView, machine: MachineView)
    ensures
        state.disable_state().region == state.region,
        !state.disable_state().enabled,
        state.disable_machine(machine).frames == machine.frames,
        state.disable_machine(machine).journal == machine.journal.push(Effect::ExtensionOff),
        release_count(state.disable_machine(machine).journal) == release_count(machine.journal),
{
    lemma_allocation_count_push(machine.journal, Effect::ExtensionOff);
}

/// Tearing down a record whose extension is on switches the extension off
/// exactly once, and gives the frame back only after that. A record whose
/// extension is off only gives the frame back.
pub proof fn lemma_teardown_disables_before_release(state: HextStateView, machine: MachineView)
    ensures
        state.teardown_machine(machine).journal == machine.journal + if state.enabled {
            seq![Effect::ExtensionOff]
        } else {
            Seq::<Effect>::empty()
        } + if state.region != 0 {
            seq![Effect::FrameReleased(state.region)]
        } else {
            Seq::<Effect>::empty()
        },
        release_count(state.teardown_machine(machine).journal) == release_count(machine.journal)
            + if state.region != 0 {
            1nat
        } else {
            0nat
        },
{
    let off = if state.enabled {
        seq![Effect::ExtensionOff]
    } else {
        Seq::<Effect>::empty()
    };
    let released = if state.region != 0 {
        seq![Effect::FrameReleased(state.region)]
    } else {
        Seq::<Effect>::empty()
    };
    let quiet = if state.enabled {
        state.disable_machine(machine)
    } else {
        machine
    };
    assert(state.teardown_machine(machine).journal =~= machine.journal + off + released);
    lemma_allocation_count_push(machine.journal, Effect::ExtensionOff);
    if state.region != 0 {
        lemma_allocation_count_push(quiet.journal, Effect::FrameReleased(state.region));
    }
}

} // verus!
