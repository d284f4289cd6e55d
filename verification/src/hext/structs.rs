//! The building blocks of the hypervisor extension's state: an owned
//! physical frame, the state region that lives in one, and the flags of the
//! ISA register.

use bit_field::BitField;
use vstd::prelude::*;

use crate::csr::Csr;
use crate::hv::error::{RvmError, RvmResult};
use crate::machine::{Machine, MachineView};
use crate::mm::{lemma_first_free, lemma_frame_extent, HostPhysAddr, HostVirtAddr, PAGE_SIZE};

verus! {

/// Bit of the ISA register that stands for the hypervisor extension.
pub const MISA_H: u64 = 0x80;

/// Highest bit of the revision id in a region's first word.
pub const REVISION_ID_HIGH_BIT: usize = 30;

/// Bit of a region's first word that marks a shadow region.
pub const SHADOW_INDICATOR_BIT: usize = 31;

/// A 4K-sized contiguous physical memory page. It is given back to the
/// frame pool by [`PhysFrame::release`].
#[derive(Debug)]
pub struct PhysFrame {
    start_paddr: HostPhysAddr,
}

/// The frame that backs the state of the hypervisor extension.
#[derive(Debug)]
pub struct HextRegion {
    frame: PhysFrame,
}

/// RISC-V Machine ISA flags
/// We only care about H-extension for now
#[derive(Debug, Clone, Copy, PartialEq, Eq, Structural)]
pub struct MachineISAFlags {
    bits: u64,
}

/// Machine ISA in RISC-V Processor
pub struct MachineISA;

/// The bits `low` to `high` of a 32-bit word, as a mask.
pub open spec fn field_mask(low: usize, high: usize) -> u32 {
    (0xFFFF_FFFFu32 >> ((31 - (high - low)) as u32)) << (low as u32)
}

/// The greatest value that fits the bits `low` to `high`.
pub open spec fn field_max(low: usize, high: usize) -> u32 {
    0xFFFF_FFFFu32 >> ((31 - (high - low)) as u32)
}

/// The single bit `bit` of a 32-bit word, as a mask.
pub open spec fn bit_mask(bit: usize) -> u32 {
    1u32 << (bit as u32)
}

/// The first word of a state region: the revision id in bits 0 to 30, the
/// shadow indicator in bit 31.
pub open spec fn region_header(revision_id: u32, shadow_indicator: bool) -> u32 {
    if shadow_indicator {
        revision_id | 0x8000_0000u32
    } else {
        revision_id
    }
}

/// The contents of a fresh state region: the header in the first four bytes,
/// least significant byte first, and zero in every byte after them.
pub open spec fn region_page(revision_id: u32, shadow_indicator: bool) -> Seq<u8> {
    Seq::new(
        PAGE_SIZE as nat,
        |i: int|
            if i < 4 {
                crate::mm::word_bytes(region_header(revision_id, shadow_indicator))[i]
            } else {
                0u8
            },
    )
}

/// The value that a write of `flags` leaves in a register that held
/// `old_value`: the bits under `mask` from `flags`, every other bit from
/// `old_value`.
pub open spec fn merge_flags(old_value: u64, flags: u64, mask: u64) -> u64 {
    (old_value & !mask) | (flags & mask)
}

/// `BitField::set_bits` of the crate `bit_field`, on a 32-bit word and the
/// inclusive range `low..=high`. The claim: the bits of the range are
/// replaced by the low bits of `value`, every other bit is kept. The
/// function panics when the range leaves the word or `value` does not fit
/// the range, so both are asked of the caller.
#[verifier::external_body]
fn set_bits(word: u32, low: usize, high: usize, value: u32) -> (r: u32)
    requires
        low <= high < 32,
        value <= field_max(low, high),
    ensures
        r == (word & !field_mask(low, high)) | (value << (low as u32)),
{
    let mut word = word;
    *word.set_bits(low..=high, value)
}

/// `BitField::set_bit` of the crate `bit_field`, on a 32-bit word. The
/// claim: bit `bit` becomes one when `value` is true and zero when it is
/// false, every other bit is kept. The function panics when `bit` is not
/// below 32, so that is asked of the caller.
#[verifier::external_body]
fn set_bit(word: u32, bit: usize, value: bool) -> (r: u32)
    requires
        bit < 32,
    ensures
        r == if value {
            word | bit_mask(bit)
        } else {
            word & !bit_mask(bit)
        },
{
    let mut word = word;
    *word.set_bit(bit, value)
}

/// The first word of a state region with the given revision id and shadow
/// indicator.
pub fn make_region_header(revision_id: u32, shadow_indicator: bool) -> (r: u32)
    requires
        revision_id <= 0x7FFF_FFFF,
    ensures
        r == region_header(revision_id, shadow_indicator),
{
    assert(field_max(0, REVISION_ID_HIGH_BIT) == 0x7FFF_FFFFu32 && field_mask(
        0,
        REVISION_ID_HIGH_BIT,
    ) == 0x7FFF_FFFFu32) by {
        assert(0xFFFF_FFFFu32 >> 1u32 == 0x7FFF_FFFFu32) by (bit_vector);
        assert(0x7FFF_FFFFu32 << 0u32 == 0x7FFF_FFFFu32) by (bit_vector);
    }
    assert(bit_mask(SHADOW_INDICATOR_BIT) == 0x8000_0000u32) by {
        assert(1u32 << 31u32 == 0x8000_0000u32) by (bit_vector);
    }
    let with_id: u32 = set_bits(0, 0, REVISION_ID_HIGH_BIT, revision_id);
    assert(with_id == revision_id) by {
        assert((0u32 & !0x7FFF_FFFFu32) | (revision_id << 0u32) == revision_id) by (bit_vector);
    }
    let word: u32 = set_bit(with_id, SHADOW_INDICATOR_BIT, shadow_indicator);
    assert(!shadow_indicator ==> word == revision_id) by {
        assert(revision_id <= 0x7FFF_FFFFu32 ==> revision_id & !0x8000_0000u32 == revision_id)
            by (bit_vector);
    }
    word
}

impl View for PhysFrame {
    type V = usize;

    /// The physical address at which the frame starts; zero for the
    /// placeholder that owns no memory.
    closed spec fn view(&self) -> usize {
        self.start_paddr
    }
}

impl PhysFrame {
    /// Whether the frame is the placeholder or owns a frame that the
    /// machine's pool has handed out.
    pub open spec fn wf(self, machine: MachineView) -> bool {
        self@ == 0 || machine.frames.owned(self@)
    }

    /// The machine after a frame was asked for and, when one was there,
    /// filled with zero bytes.
    pub open spec fn spec_alloc_zero(machine: MachineView) -> MachineView {
        match machine.frames.alloc_result() {
            Some(paddr) => machine.alloc_page().fill_page(paddr, 0),
            None => machine,
        }
    }

    /// The machine after a frame that starts at `paddr` was released.
    pub open spec fn spec_release(paddr: usize, machine: MachineView) -> MachineView {
        if paddr > 0 {
            machine.dealloc_page(paddr)
        } else {
            machine
        }
    }

    /// Takes one frame from the machine's pool. Fails with `OutOfMemory`,
    /// and changes nothing, when the pool is exhausted. The frame's address
    /// is page-aligned and not zero.
    pub fn allocate(machine: &mut Machine) -> (r: RvmResult<PhysFrame>)
        requires
            old(machine)@.wf(),
        ensures
            final(machine)@ == old(machine)@.alloc_page(),
            final(machine)@.wf(),
            match old(machine)@.frames.alloc_result() {
                Some(paddr) => r matches Ok(frame) && frame@ == paddr && paddr > 0 && paddr
                    % PAGE_SIZE == 0 && frame.wf(final(machine)@) && !old(machine)@.frames.owned(
                    paddr,
                ),
                None => r == Err::<PhysFrame, RvmError>(RvmError::OutOfMemory),
            },
    {
        let start_paddr: usize = match machine.alloc_page() {
            Some(paddr) => paddr,
            None => {
                return Err(RvmError::OutOfMemory);
            },
        };
        proof {
            lemma_alloc_owned(old(machine)@);
        }
        Ok(PhysFrame { start_paddr })
    }

    /// Takes one frame from the machine's pool and fills it with zero
    /// bytes, so that nothing of its earlier contents is left.
    pub fn alloc_zero(machine: &mut Machine) -> (r: RvmResult<PhysFrame>)
        requires
            old(machine)@.wf(),
        ensures
            final(machine)@ == Self::spec_alloc_zero(old(machine)@),
            final(machine)@.wf(),
            match old(machine)@.frames.alloc_result() {
                Some(paddr) => r matches Ok(frame) && frame@ == paddr && paddr > 0 && paddr
                    % PAGE_SIZE == 0 && frame.wf(final(machine)@) && final(machine)@.frames.page(
                    paddr,
                ) == Seq::new(PAGE_SIZE as nat, |i: int| 0u8),
                None => r == Err::<PhysFrame, RvmError>(RvmError::OutOfMemory),
            },
    {
        let mut f: PhysFrame = match Self::allocate(machine) {
            Ok(f) => f,
            Err(e) => {
                return Err(e);
            },
        };
        f.fill(machine, 0);
        proof {
            lemma_frame_extent(machine@.frames, f@);
            assert(machine@.frames.page(f@) =~= Seq::new(PAGE_SIZE as nat, |i: int| 0u8));
        }
        Ok(f)
    }

    /// The placeholder: a frame that owns no memory and is never given
    /// back.
    pub fn uninit() -> (r: PhysFrame)
        ensures
            r@ == 0,
    {
        PhysFrame { start_paddr: 0 }
    }

    /// The physical address at which the frame starts.
    pub fn start_paddr(&self) -> (r: HostPhysAddr)
        ensures
            r == self@,
    {
        self.start_paddr
    }

    /// The virtual address through which the frame's bytes are reached.
    pub fn as_mut_ptr(&self, machine: &Machine) -> (r: HostVirtAddr)
        requires
            machine@.wf(),
            self.wf(machine@),
        ensures
            r == machine@.frames.phys_to_virt(self@),
    {
        proof {
            if self@ != 0 {
                lemma_frame_extent(machine@.frames, self@);
            }
        }
        machine.phys_to_virt(self.start_paddr)
    }

    /// Sets every byte of the frame to `byte`.
    pub fn fill(&mut self, machine: &mut Machine, byte: u8)
        requires
            old(machine)@.wf(),
            old(machine)@.frames.owned(old(self)@),
        ensures
            final(self)@ == old(self)@,
            final(machine)@ == old(machine)@.fill_page(old(self)@, byte),
            final(machine)@.wf(),
            final(self).wf(final(machine)@),
    {
        machine.fill_page(self.start_paddr, byte);
    }

    /// Gives the frame back to the machine's pool. The placeholder owns
    /// nothing and gives nothing back.
    pub fn release(self, machine: &mut Machine)
        requires
            old(machine)@.wf(),
            self.wf(old(machine)@),
        ensures
            final(machine)@ == Self::spec_release(self@, old(machine)@),
            final(machine)@.wf(),
            self@ > 0 ==> !final(machine)@.frames.owned(self@),
    {
        if self.start_paddr > 0 {
            machine.dealloc_page(self.start_paddr);
        }
    }
}

/// After an allocation from a well-formed pool the pool is well-formed, the
/// frame handed out is owned, aligned and not at address zero, and every
/// frame that was owned before still is.
pub proof fn lemma_alloc_owned(machine: MachineView)
    requires
        machine.wf(),
    ensures
        machine.alloc_page().wf(),
        machine.frames.alloc_result() matches Some(paddr) ==> {
            &&& machine.alloc_page().frames.owned(paddr)
            &&& !machine.frames.owned(paddr)
            &&& paddr > 0
            &&& paddr % PAGE_SIZE == 0
        },
        forall|other: usize| machine.frames.owned(other) ==> machine.alloc_page().frames.owned(other),
{
    let pool = machine.frames;
    lemma_first_free(pool.used, 0);
    let i = pool.first_free();
    if i < pool.used.len() {
        assert(i * 4096 < pool.used.len() * 4096) by (nonlinear_arith)
            requires
                0 <= i < pool.used.len(),
        ;
        let paddr = (pool.base + i * PAGE_SIZE) as usize;
        assert(paddr - pool.base == i * 4096);
        assert((i * 4096) % 4096 == 0 && (i * 4096) / 4096 == i) by (nonlinear_arith);
        assert(pool.base % 4096 == 0);
        assert((pool.base + i * 4096) % 4096 == 0) by (nonlinear_arith)
            requires
                pool.base % 4096 == 0,
        ;
    }
}

impl View for HextRegion {
    type V = usize;

    /// The physical address of the frame that backs the region; zero while
    /// the region is the placeholder.
    closed spec fn view(&self) -> usize {
        self.frame@
    }
}

impl HextRegion {
    /// Whether the region is the placeholder or is backed by a frame that
    /// the machine's pool has handed out.
    pub open spec fn wf(self, machine: MachineView) -> bool {
        self@ == 0 || machine.frames.owned(self@)
    }

    /// The machine after a region with the given header was asked for.
    pub open spec fn spec_new(machine: MachineView, revision_id: u32, shadow_indicator: bool)
        -> MachineView {
        match machine.frames.alloc_result() {
            Some(paddr) => PhysFrame::spec_alloc_zero(machine).store_word(
                paddr,
                region_header(revision_id, shadow_indicator),
            ),
            None => machine,
        }
    }

    /// The placeholder: a region without a frame.
    pub fn uninit() -> (r: HextRegion)
        ensures
            r@ == 0,
    {
        HextRegion { frame: PhysFrame::uninit() }
    }

    /// A region in a fresh frame: every byte zero but the first word,
    /// which holds `revision_id` in bits 0 to 30 and `shadow_indicator` in
    /// bit 31. Fails with `OutOfMemory`, and changes nothing, when no frame
    /// is left.
    pub fn new(machine: &mut Machine, revision_id: u32, shadow_indicator: bool) -> (r: RvmResult<
        HextRegion,
    >)
        requires
            old(machine)@.wf(),
            revision_id <= 0x7FFF_FFFF,
        ensures
            final(machine)@ == Self::spec_new(old(machine)@, revision_id, shadow_indicator),
            final(machine)@.wf(),
            match old(machine)@.frames.alloc_result() {
                Some(paddr) => r matches Ok(region) && region@ == paddr && paddr > 0
                    && region.wf(final(machine)@) && final(machine)@.frames.page(paddr)
                    == region_page(revision_id, shadow_indicator),
                None => r == Err::<HextRegion, RvmError>(RvmError::OutOfMemory),
            },
    {
        let frame: PhysFrame = match PhysFrame::alloc_zero(machine) {
            Ok(frame) => frame,
            Err(e) => {
                return Err(e);
            },
        };
        let header: u32 = make_region_header(revision_id, shadow_indicator);
        let ghost zeroed = machine@;
        machine.store_word(frame.start_paddr(), header);
        proof {
            lemma_frame_extent(zeroed.frames, frame@);
            assert(machine@.frames.page(frame@) =~= region_page(revision_id, shadow_indicator));
        }
        Ok(HextRegion { frame })
    }

    /// The physical address of the frame that backs the region.
    pub fn phys_addr(&self) -> (r: HostPhysAddr)
        ensures
            r == self@,
    {
        self.frame.start_paddr()
    }

    /// Gives the region's frame back to the machine's pool.
    pub fn release(self, machine: &mut Machine)
        requires
            old(machine)@.wf(),
            self.wf(old(machine)@),
        ensures
            final(machine)@ == PhysFrame::spec_release(self@, old(machine)@),
            final(machine)@.wf(),
    {
        self.frame.release(machine);
    }
}

/// A region with revision id zero and no shadow indicator is zero in every
/// byte.
pub proof fn lemma_plain_region_is_zero()
    ensures
        region_header(0, false) == 0,
        region_page(0, false) == Seq::new(PAGE_SIZE as nat, |i: int| 0u8),
{
    assert(0u32 & 0xff == 0 && (0u32 >> 8) & 0xff == 0 && (0u32 >> 16) & 0xff == 0 && (0u32 >> 24)
        & 0xff == 0) by (bit_vector);
    assert(region_page(0, false) =~= Seq::new(PAGE_SIZE as nat, |i: int| 0u8));
}

impl MachineISAFlags {
    #[verifier::type_invariant]
    spec fn only_known_bits(self) -> bool {
        self.bits & !MISA_H == 0
    }

    /// The flags as bits of the ISA register.
    pub closed spec fn spec_bits(self) -> u64 {
        self.bits
    }

    /// Hypervisor extension
    #[allow(non_snake_case)]
    pub fn H() -> (r: MachineISAFlags)
        ensures
            r.spec_bits() == MISA_H,
    {
        assert(MISA_H & !MISA_H == 0) by (bit_vector);
        MachineISAFlags { bits: MISA_H }
    }

    /// No flag.
    pub fn empty() -> (r: MachineISAFlags)
        ensures
            r.spec_bits() == 0,
    {
        assert(0u64 & !MISA_H == 0) by (bit_vector);
        MachineISAFlags { bits: 0 }
    }

    /// Every flag.
    pub fn all() -> (r: MachineISAFlags)
        ensures
            r.spec_bits() == MISA_H,
    {
        assert(MISA_H & !MISA_H == 0) by (bit_vector);
        MachineISAFlags { bits: MISA_H }
    }

    /// The flags as bits of the ISA register.
    pub fn bits(&self) -> (r: u64)
        ensures
            r == self.spec_bits(),
            r & !MISA_H == 0,
    {
        proof {
            use_type_invariant(self);
        }
        self.bits
    }

    /// The flags among `bits`; bits that stand for no flag are dropped.
    pub fn from_bits_truncate(bits: u64) -> (r: MachineISAFlags)
        ensures
            r.spec_bits() == bits & MISA_H,
    {
        assert((bits & MISA_H) & !MISA_H == 0) by (bit_vector);
        MachineISAFlags { bits: bits & MISA_H }
    }

    /// Whether every flag of `other` is among these flags.
    pub fn contains(&self, other: MachineISAFlags) -> (r: bool)
        ensures
            r == (self.spec_bits() & other.spec_bits() == other.spec_bits()),
    {
        (self.bits & other.bits) == other.bits
    }
}

impl MachineISA {
    /// The register that holds the flags.
    pub fn csr() -> (r: Csr)
        ensures
            r == Csr::MISA,
    {
        Csr::MISA
    }

    fn read_raw(machine: &Machine) -> (r: u64)
        ensures
            r == machine.csrs.misa,
    {
        Self::csr().read(machine)
    }

    fn write_raw(machine: &mut Machine, flags: u64)
        ensures
            final(machine)@ == old(machine)@.write_csr(Csr::MISA, flags),
    {
        Self::csr().write(machine, flags);
    }

    /// The flags that the ISA register holds.
    pub fn read(machine: &Machine) -> (r: MachineISAFlags)
        ensures
            r.spec_bits() == machine.csrs.misa & MISA_H,
    {
        MachineISAFlags::from_bits_truncate(Self::read_raw(machine))
    }

    /// Writes `flags` to the ISA register and keeps every bit of it that
    /// stands for no flag.
    pub fn write(machine: &mut Machine, flags: MachineISAFlags)
        ensures
            final(machine)@ == old(machine)@.write_csr(
                Csr::MISA,
                merge_flags(old(machine).csrs.misa, flags.spec_bits(), MISA_H),
            ),
    {
        let old_value: u64 = Self::read_raw(machine);
        let reserved: u64 = old_value & !(MachineISAFlags::all().bits());
        let new_value: u64 = reserved | flags.bits();
        assert(flags.spec_bits() & MISA_H == flags.spec_bits()) by {
            let b = flags.spec_bits();
            assert(b & !MISA_H == 0 ==> b & MISA_H == b) by (bit_vector);
        }
        Self::write_raw(machine, new_value);
    }
}

} // verus!
