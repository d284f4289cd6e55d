//! Physical memory as the frame manager sees it: a pool of page frames with
//! their contents, first-fit allocation, and the physical-to-virtual map.

use vstd::prelude::*;

verus! {

/// Size of one page frame in bytes.
pub const PAGE_SIZE: usize = 4096;

/// A physical address on the host.
pub type HostPhysAddr = usize;

/// A virtual address on the host.
pub type HostVirtAddr = usize;

/// A pool of contiguous page frames starting at a page-aligned, nonzero
/// physical address.
pub struct FramePool {
    base: usize,
    virt_offset: usize,
    used: Vec<bool>,
    bytes: Vec<u8>,
}

/// What a [`FramePool`] holds: which frames are owned, and every byte.
pub struct FramePoolView {
    pub base: usize,
    pub virt_offset: usize,
    pub used: Seq<bool>,
    pub bytes: Seq<u8>,
}

/// Index of the first `false` in `used` at or after `start`, or the length
/// of `used` when there is none.
pub open spec fn first_free_from(used: Seq<bool>, start: int) -> int
    decreases used.len() - start,
{
    if start >= used.len() {
        used.len() as int
    } else if !used[start] {
        start
    } else {
        first_free_from(used, start + 1)
    }
}

/// The four bytes of `word`, least significant first.
pub open spec fn word_bytes(word: u32) -> Seq<u8> {
    seq![
        (word & 0xff) as u8,
        ((word >> 8) & 0xff) as u8,
        ((word >> 16) & 0xff) as u8,
        ((word >> 24) & 0xff) as u8,
    ]
}

impl FramePoolView {
    /// The pool's shape: aligned nonzero base, one page of bytes per frame,
    /// and every address, physical or virtual, within the machine's range.
    pub open spec fn wf(self) -> bool {
        &&& self.base > 0
        &&& self.base % PAGE_SIZE == 0
        &&& self.bytes.len() == self.used.len() * PAGE_SIZE
        &&& self.base + self.bytes.len() + self.virt_offset <= usize::MAX
    }

    /// Whether `paddr` is the start of one of the pool's frames.
    pub open spec fn is_frame(self, paddr: usize) -> bool {
        &&& paddr >= self.base
        &&& (paddr - self.base) % (PAGE_SIZE as int) == 0
        &&& (paddr - self.base) / (PAGE_SIZE as int) < self.used.len()
    }

    /// The number of the frame that starts at `paddr`.
    pub open spec fn index_of(self, paddr: usize) -> int {
        (paddr - self.base) / (PAGE_SIZE as int)
    }

    /// Whether the frame at `paddr` is currently handed out.
    pub open spec fn owned(self, paddr: usize) -> bool {
        self.is_frame(paddr) && self.used[self.index_of(paddr)]
    }

    /// The lowest frame that is not handed out, if any.
    pub open spec fn first_free(self) -> int {
        first_free_from(self.used, 0)
    }

    /// What an allocation returns: the address of the lowest free frame,
    /// or `None` when every frame is handed out.
    pub open spec fn alloc_result(self) -> Option<usize> {
        if self.first_free() < self.used.len() {
            Some((self.base + self.first_free() * PAGE_SIZE) as usize)
        } else {
            None
        }
    }

    /// The pool after an allocation.
    pub open spec fn after_alloc(self) -> FramePoolView {
        if self.first_free() < self.used.len() {
            FramePoolView { used: self.used.update(self.first_free(), true), ..self }
        } else {
            self
        }
    }

    /// The pool after the frame at `paddr` was given back.
    pub open spec fn after_dealloc(self, paddr: usize) -> FramePoolView {
        FramePoolView { used: self.used.update(self.index_of(paddr), false), ..self }
    }

    /// The pool after every byte of the frame at `paddr` was set to `byte`.
    pub open spec fn after_fill(self, paddr: usize, byte: u8) -> FramePoolView {
        let start = paddr - self.base;
        FramePoolView {
            bytes: Seq::new(
                self.bytes.len(),
                |j: int|
                    if start <= j < start + PAGE_SIZE {
                        byte
                    } else {
                        self.bytes[j]
                    },
            ),
            ..self
        }
    }

    /// The pool after `word` was stored, least significant byte first, at
    /// the start of the frame at `paddr`.
    pub open spec fn after_store_word(self, paddr: usize, word: u32) -> FramePoolView {
        let start = paddr - self.base;
        FramePoolView {
            bytes: Seq::new(
                self.bytes.len(),
                |j: int|
                    if start <= j < start + 4 {
                        word_bytes(word)[j - start]
                    } else {
                        self.bytes[j]
                    },
            ),
            ..self
        }
    }

    /// The contents of the frame at `paddr`.
    pub open spec fn page(self, paddr: usize) -> Seq<u8> {
        self.bytes.subrange(paddr - self.base, paddr - self.base + PAGE_SIZE)
    }

    /// The virtual address through which `paddr` is reached.
    pub open spec fn phys_to_virt(self, paddr: usize) -> int {
        paddr + self.virt_offset
    }
}

/// Below the first free index every frame is handed out, and the frame at
/// that index, when there is one, is free.
pub proof fn lemma_first_free(used: Seq<bool>, start: int)
    requires
        0 <= start <= used.len(),
    ensures
        start <= first_free_from(used, start) <= used.len(),
        forall|j: int| start <= j < first_free_from(used, start) ==> used[j],
        first_free_from(used, start) < used.len() ==> !used[first_free_from(used, start)],
    decreases used.len() - start,
{
    if start < used.len() && used[start] {
        lemma_first_free(used, start + 1);
    }
}

impl View for FramePool {
    type V = FramePoolView;

    closed spec fn view(&self) -> FramePoolView {
        FramePoolView {
            base: self.base,
            virt_offset: self.virt_offset,
            used: self.used@,
            bytes: self.bytes@,
        }
    }
}

impl FramePool {
    /// A pool of `frames` free frames starting at physical address `base`,
    /// every byte holding `fill`, reached at virtual addresses `virt_offset`
    /// above the physical ones. `None` when `base` is zero or unaligned, or
    /// when the pool would not fit the address range.
    pub fn new(base: usize, frames: usize, virt_offset: usize, fill: u8) -> (r: Option<FramePool>)
        ensures
            r is Some <==> base > 0 && base % PAGE_SIZE == 0 && base + frames * PAGE_SIZE
                + virt_offset <= usize::MAX,
            r matches Some(pool) ==> pool@.wf() && pool@.base == base && pool@.virt_offset
                == virt_offset && pool@.used == Seq::new(frames as nat, |i: int| false)
                && pool@.bytes == Seq::new((frames * PAGE_SIZE) as nat, |i: int| fill),
    {
        if base == 0 || base % PAGE_SIZE != 0 {
            return None;
        }
        let len: usize = match frames.checked_mul(PAGE_SIZE) {
            Some(len) => len,
            None => {
                return None;
            },
        };
        let end: usize = match base.checked_add(len) {
            Some(end) => end,
            None => {
                return None;
            },
        };
        if end.checked_add(virt_offset).is_none() {
            return None;
        }
        let mut used: Vec<bool> = Vec::new();
        let mut i: usize = 0;
        while i < frames
            invariant
                i <= frames,
                used@ == Seq::new(i as nat, |j: int| false),
            decreases frames - i,
        {
            used.push(false);
            i += 1;
        }
        let mut bytes: Vec<u8> = Vec::new();
        let mut k: usize = 0;
        while k < len
            invariant
                k <= len,
                bytes@ == Seq::new(k as nat, |j: int| fill),
            decreases len - k,
        {
            bytes.push(fill);
            k += 1;
        }
        Some(FramePool { base, virt_offset, used, bytes })
    }

    /// Physical address of the first frame.
    pub fn base(&self) -> (r: usize)
        ensures
            r == self@.base,
    {
        self.base
    }

    /// Number of frames in the pool, owned or free.
    pub fn frame_count(&self) -> (r: usize)
        ensures
            r == self@.used.len(),
    {
        self.used.len()
    }

    /// Whether `paddr` starts a frame that is currently handed out.
    pub fn is_owned(&self, paddr: usize) -> (r: bool)
        ensures
            r == self@.owned(paddr),
    {
        if paddr < self.base || (paddr - self.base) % PAGE_SIZE != 0 {
            return false;
        }
        let index: usize = (paddr - self.base) / PAGE_SIZE;
        index < self.used.len() && self.used[index]
    }

    /// Hands out the lowest free frame and returns its address, or returns
    /// `None` and changes nothing when every frame is handed out. The
    /// frame's contents are whatever was left in it.
    pub fn alloc_page(&mut self) -> (r: Option<usize>)
        requires
            old(self)@.wf(),
        ensures
            r == old(self)@.alloc_result(),
            final(self)@ == old(self)@.after_alloc(),
    {
        let n: usize = self.used.len();
        let mut i: usize = 0;
        while i < n
            invariant
                i <= n,
                n == self.used@.len(),
                *self == *old(self),
                self@.wf(),
                first_free_from(self.used@, i as int) == first_free_from(self.used@, 0),
            decreases n - i,
        {
            if !self.used[i] {
                assert(i * PAGE_SIZE < self.bytes@.len()) by (nonlinear_arith)
                    requires
                        i < self.used@.len(),
                        self.bytes@.len() == self.used@.len() * PAGE_SIZE,
                ;
                let paddr: usize = self.base + i * PAGE_SIZE;
                self.used.set(i, true);
                return Some(paddr);
            }
            i += 1;
        }
        None
    }

    /// Takes back the frame at `paddr`, which must be handed out.
    pub fn dealloc_page(&mut self, paddr: usize)
        requires
            old(self)@.wf(),
            old(self)@.owned(paddr),
        ensures
            final(self)@ == old(self)@.after_dealloc(paddr),
    {
        let index: usize = (paddr - self.base) / PAGE_SIZE;
        self.used.set(index, false);
    }

    /// Sets every byte of the frame at `paddr` to `byte`.
    pub fn fill(&mut self, paddr: usize, byte: u8)
        requires
            old(self)@.wf(),
            old(self)@.is_frame(paddr),
        ensures
            final(self)@ == old(self)@.after_fill(paddr, byte),
    {
        let start: usize = paddr - self.base;
        proof {
            lemma_frame_extent(self@, paddr);
        }
        let mut k: usize = 0;
        while k < PAGE_SIZE
            invariant
                k <= PAGE_SIZE,
                start + PAGE_SIZE <= self.bytes@.len(),
                start + PAGE_SIZE <= usize::MAX,
                self.bytes@.len() == old(self).bytes@.len(),
                self.base == old(self).base,
                self.virt_offset == old(self).virt_offset,
                self.used == old(self).used,
                forall|j: int|
                    0 <= j < self.bytes@.len() ==> self.bytes@[j] == if start <= j < start + k {
                        byte
                    } else {
                        old(self).bytes@[j]
                    },
            decreases PAGE_SIZE - k,
        {
            self.bytes.set(start + k, byte);
            k += 1;
        }
        assert(self@.bytes =~= old(self)@.after_fill(paddr, byte).bytes);
    }

    /// Stores `word` at the start of the frame at `paddr`, least
    /// significant byte first.
    pub fn store_word(&mut self, paddr: usize, word: u32)
        requires
            old(self)@.wf(),
            old(self)@.is_frame(paddr),
        ensures
            final(self)@ == old(self)@.after_store_word(paddr, word),
    {
        let start: usize = paddr - self.base;
        proof {
            lemma_frame_extent(self@, paddr);
        }
        let b0: u8 = (word & 0xff) as u8;
        let b1: u8 = ((word >> 8) & 0xff) as u8;
        let b2: u8 = ((word >> 16) & 0xff) as u8;
        let b3: u8 = ((word >> 24) & 0xff) as u8;
        self.bytes.set(start, b0);
        self.bytes.set(start + 1, b1);
        self.bytes.set(start + 2, b2);
        self.bytes.set(start + 3, b3);
        assert(self@.bytes =~= old(self)@.after_store_word(paddr, word).bytes);
    }

    /// The byte at `offset` within the frame at `paddr`.
    pub fn load_byte(&self, paddr: usize, offset: usize) -> (r: u8)
        requires
            self@.wf(),
            self@.is_frame(paddr),
            offset < PAGE_SIZE,
        ensures
            r == self@.page(paddr)[offset as int],
    {
        proof {
            lemma_frame_extent(self@, paddr);
        }
        self.bytes[paddr - self.base + offset]
    }

    /// The virtual address through which physical address `paddr` is
    /// reached.
    pub fn phys_to_virt(&self, paddr: usize) -> (r: usize)
        requires
            paddr + self@.virt_offset <= usize::MAX,
        ensures
            r == self@.phys_to_virt(paddr),
    {
        paddr + self.virt_offset
    }
}

/// A frame of a well-formed pool lies wholly within the pool's bytes.
pub proof fn lemma_frame_extent(pool: FramePoolView, paddr: usize)
    requires
        pool.wf(),
        pool.is_frame(paddr),
    ensures
        paddr - pool.base == pool.index_of(paddr) * PAGE_SIZE,
        paddr - pool.base + PAGE_SIZE <= pool.bytes.len(),
        paddr + PAGE_SIZE + pool.virt_offset <= usize::MAX,
        paddr > 0,
{
    let d = paddr - pool.base;
    let i = pool.index_of(paddr);
    assert(d == i * 4096 + d % 4096);
    assert((i + 1) * 4096 <= pool.used.len() * 4096) by (nonlinear_arith)
        requires
            i + 1 <= pool.used.len(),
    ;
}

} // verus!
