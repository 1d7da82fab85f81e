//! Bitmap allocator
use vstd::prelude::*;
use crate::addr::phys::PhysAddr;
use crate::arch::x86_64::addr::phys::PHYS_ADDR_SPAN;
use crate::mem::frame::{PhysFrame, PhysFrameRange, frame_addr_of_index};

verus! {

/// Simple allocator that relies on a bitmap to keep track of the allocated
/// physical frames.
///
/// Each bit represents a 4 KiB physical frame, so allocations and
/// deallocations happen with this granularity.
pub struct BitMapAllocator {
    pub m_inner: Option<BitMapAllocatorInner>,
    pub m_added_frames: usize,
    /// The frames accounted as allocated by `init`
    pub m_initial_allocated: Ghost<nat>,
    /// The frames handed out by the allocations since `init`
    pub m_handed_out: Ghost<nat>,
    /// The frames given back by the frees since `init`
    pub m_given_back: Ghost<nat>,
}

impl BitMapAllocator {
    /// Every frame index of the bitmap has an address that fits a `u64`;
    /// the allocated frames are those accounted by `init`, plus those handed
    /// out, less those given back; before `init` nothing is counted
    pub open spec fn wf(&self) -> bool {
        match self.m_inner {
            Some(inner) => {
                &&& inner.wf()
                &&& inner.m_bits@.len() * 8 * 4096 <= u64::MAX
                &&& inner.allocated() + self.m_given_back@ == self.m_initial_allocated@
                    + self.m_handed_out@
            },
            None => {
                &&& self.m_added_frames == 0
                &&& self.m_initial_allocated@ == 0
                &&& self.m_handed_out@ == 0
                &&& self.m_given_back@ == 0
            },
        }
    }

    /// The bitmap has been given
    pub open spec fn is_initialized(&self) -> bool {
        self.m_inner is Some
    }

    /// The availability of each frame, by frame index
    pub open spec fn bits(&self) -> Seq<bool> {
        match self.m_inner {
            Some(inner) => inner.bits(),
            None => Seq::empty(),
        }
    }

    /// The number of allocated frames counted so far
    pub open spec fn allocated(&self) -> nat {
        match self.m_inner {
            Some(inner) => inner.allocated(),
            None => 0,
        }
    }

    /// Constructs an uninitialized `BitMapAllocator`, which must be
    /// initialized with `BitMapAllocator::init()`
    pub fn new_uninitialized() -> (r: Self)
        ensures
            r.wf(),
            !r.is_initialized(),
            r.m_added_frames == 0,
    {
        Self {
            m_inner: None,
            m_added_frames: 0,
            m_initial_allocated: Ghost(0),
            m_handed_out: Ghost(0),
            m_given_back: Ghost(0),
        }
    }

    /// Gives to the allocator its bitmap, whose bytes are all set to 0, so
    /// that no frame is available until `add_phys_frame` gives it, with
    /// `allocated_bits` frames accounted as allocated
    pub fn init(&mut self, bitmap: Vec<u8>, allocated_bits: usize)
        requires
            old(self).wf(),
            bitmap@.len() * 8 * 4096 <= u64::MAX,
            bitmap@.len() * 8 <= usize::MAX,
        ensures
            final(self).wf(),
            final(self).is_initialized(),
            final(self).bits() == Seq::new(bitmap@.len() * 8, |i: int| false),
            final(self).allocated() == allocated_bits,
            final(self).m_added_frames == old(self).m_added_frames,
            !old(self).is_initialized() ==> final(self).m_added_frames == 0,
            final(self).m_initial_allocated@ == allocated_bits,
            final(self).m_handed_out@ == 0,
            final(self).m_given_back@ == 0,
    {
        self.m_inner = Some(BitMapAllocatorInner::new(bitmap, allocated_bits));
        self.m_initial_allocated = Ghost(allocated_bits as nat);
        self.m_handed_out = Ghost(0);
        self.m_given_back = Ghost(0);
    }

    /// Allocates the first available frame
    pub fn allocate_one(&mut self) -> (r: Option<PhysFrame>)
        requires
            old(self).wf(),
            old(self).is_initialized() && !none_available(old(self).bits()) ==> old(
                self,
            ).allocated() < usize::MAX,
        ensures
            final(self).wf(),
            final(self).m_initial_allocated == old(self).m_initial_allocated,
            final(self).m_given_back == old(self).m_given_back,
            final(self).m_handed_out@ == old(self).m_handed_out@ + if r is Some { 1nat } else { 0nat },
            final(self).is_initialized() == old(self).is_initialized(),
            final(self).m_added_frames == old(self).m_added_frames,
            match r {
                Some(frame) => exists|i: int|
                    {
                        &&& is_first_available(old(self).bits(), i)
                        &&& frame@ == frame_addr_of_index(i)
                        &&& final(self).bits() == old(self).bits().update(i, false)
                        &&& final(self).allocated() == old(self).allocated() + 1
                    },
                None => {
                    &&& none_available(old(self).bits())
                    &&& final(self).bits() == old(self).bits()
                    &&& final(self).allocated() == old(self).allocated()
                },
            },
    {
        let r = match &mut self.m_inner {
            Some(inner) => {
                let ghost len = inner.m_bits@.len();
                match inner.allocate_bit() {
                    Some(bit_index) => {
                        proof {
                            assert(bit_index * 4096 <= u64::MAX) by (nonlinear_arith)
                                requires
                                    bit_index < len * 8,
                                    len * 8 * 4096 <= u64::MAX,
                            ;
                        }
                        let raw_addr = bit_index as u64 * 4096;
                        let frame = PhysAddr::new(raw_addr).containing_frame();
                        proof {
                            assert(frame@ == frame_addr_of_index(bit_index as int)) by {
                                let a = raw_addr % PHYS_ADDR_SPAN;
                                assert(a % 4096 == 0) by (nonlinear_arith)
                                    requires
                                        a == (bit_index * 4096) % 0x10_0000_0000_0000,
                                {
                                    vstd::arithmetic::div_mod::lemma_mod_mod(
                                        bit_index * 4096,
                                        4096,
                                        0x100_0000_0000,
                                    );
                                    vstd::arithmetic::div_mod::lemma_mod_multiples_basic(
                                        bit_index as int,
                                        4096,
                                    );
                                }
                            }
                        }
                        Some(frame)
                    },
                    None => None,
                }
            },
            None => None,
        };
        if r.is_some() {
            self.m_handed_out = Ghost(self.m_handed_out@ + 1);
        }
        r
    }

    /// Allocates the first available block of `frames_count` frames (see
    /// `BitMapAllocatorInner::find_first_free_aligned_block`); `alignment`
    /// does not constrain the block
    pub fn allocate_contiguous(&mut self, frames_count: usize, alignment: usize) -> (r: Option<
        PhysFrameRange,
    >)
        requires
            old(self).wf(),
            old(self).is_initialized() ==> {
                &&& frames_count % 8 == 0
                &&& 8 <= frames_count
                &&& frames_count / 8 <= old(self).m_inner->0.m_bits@.len()
                &&& !no_free_block(old(self).m_inner->0.m_bits@, (frames_count / 8) as int)
                    ==> old(self).allocated() + frames_count <= usize::MAX
            },
        ensures
            final(self).wf(),
            final(self).m_initial_allocated == old(self).m_initial_allocated,
            final(self).m_given_back == old(self).m_given_back,
            final(self).m_handed_out@ == old(self).m_handed_out@ + if r is Some {
                frames_count as nat
            } else {
                0nat
            },
            final(self).is_initialized() == old(self).is_initialized(),
            final(self).m_added_frames == old(self).m_added_frames,
            match r {
                Some(range) => exists|start: int|
                    #![trigger frame_addr_of_index(start)]
                    {
                        &&& old(self).is_initialized()
                        &&& start % 8 == 0
                        &&& is_first_free_block(
                            old(self).m_inner->0.m_bits@,
                            (frames_count / 8) as int,
                            start / 8,
                        )
                        &&& range.start@ == frame_addr_of_index(start)
                        &&& range.end@ == frame_addr_of_index(start + frames_count)
                        &&& final(self).bits() == fill_range(
                            old(self).bits(),
                            start,
                            start + frames_count,
                            false,
                        )
                        &&& final(self).allocated() == old(self).allocated() + frames_count
                    },
                None => {
                    &&& old(self).is_initialized() ==> no_free_block(
                        old(self).m_inner->0.m_bits@,
                        (frames_count / 8) as int,
                    )
                    &&& final(self).bits() == old(self).bits()
                    &&& final(self).allocated() == old(self).allocated()
                },
            },
    {
        let r = match &mut self.m_inner {
            Some(inner) => {
                let ghost len = inner.m_bits@.len();
                match inner.allocate_bits(frames_count, alignment / 4096) {
                    Some((start, end)) => {
                        proof {
                            assert(end * 4096 <= u64::MAX) by (nonlinear_arith)
                                requires
                                    end <= len * 8,
                                    len * 8 * 4096 <= u64::MAX,
                            ;
                        }
                        let start_frame = PhysAddr::new(start as u64 * 4096).containing_frame();
                        let end_frame = PhysAddr::new(end as u64 * 4096).containing_frame();
                        proof {
                            lemma_frame_of_page_index(start as int);
                            lemma_frame_of_page_index(end as int);
                        }
                        Some(PhysFrame::range_of(start_frame, end_frame))
                    },
                    None => None,
                }
            },
            None => None,
        };
        if r.is_some() {
            self.m_handed_out = Ghost(self.m_handed_out@ + frames_count as nat);
        }
        r
    }

    /// Makes available again the given frame
    pub fn free_one(&mut self, phys_frame: PhysFrame)
        requires
            old(self).wf(),
            old(self).is_initialized() ==> {
                &&& ((phys_frame@ / 4096) as int) < old(self).bits().len()
                &&& !old(self).bits()[((phys_frame@ / 4096) as int)]
                &&& old(self).allocated() >= 1
            },
        ensures
            final(self).wf(),
            final(self).is_initialized() == old(self).is_initialized(),
            final(self).m_added_frames == old(self).m_added_frames,
            old(self).is_initialized() ==> final(self).bits() == old(self).bits().update(
                ((phys_frame@ / 4096) as int),
                true,
            ),
            old(self).is_initialized() ==> final(self).allocated() == old(self).allocated() - 1,
            !old(self).is_initialized() ==> final(self).bits() == old(self).bits(),
            final(self).m_initial_allocated == old(self).m_initial_allocated,
            final(self).m_handed_out == old(self).m_handed_out,
            final(self).m_given_back@ == old(self).m_given_back@ + if old(self).is_initialized() {
                1nat
            } else {
                0nat
            },
    {
        if let Some(inner) = &mut self.m_inner {
            inner.free_bit((phys_frame.start_addr().as_usize() / 4096) as usize);
            self.m_given_back = Ghost(self.m_given_back@ + 1);
        }
    }

    /// Makes available again the frames of the given range
    pub fn free_contiguous(&mut self, frames_range: PhysFrameRange)
        requires
            old(self).wf(),
            old(self).is_initialized() ==> {
                &&& ((frames_range.start@ / 4096) as int) <= ((frames_range.end@ / 4096) as int) <= old(
                    self,
                ).bits().len()
                &&& old(self).allocated() >= ((frames_range.end@ / 4096) as int) - frames_range.start@
                    / 4096
            },
        ensures
            final(self).wf(),
            final(self).is_initialized() == old(self).is_initialized(),
            final(self).m_added_frames == old(self).m_added_frames,
            old(self).is_initialized() ==> final(self).bits() == fill_range(
                old(self).bits(),
                ((frames_range.start@ / 4096) as int),
                ((frames_range.end@ / 4096) as int),
                true,
            ),
            old(self).is_initialized() ==> final(self).allocated() == old(self).allocated() - (
            ((frames_range.end@ / 4096) as int) - ((frames_range.start@ / 4096) as int)),
            !old(self).is_initialized() ==> final(self).bits() == old(self).bits(),
            final(self).m_initial_allocated == old(self).m_initial_allocated,
            final(self).m_handed_out == old(self).m_handed_out,
            final(self).m_given_back@ == old(self).m_given_back@ + if old(self).is_initialized() {
                ((frames_range.end@ / 4096) as int - (frames_range.start@ / 4096) as int) as nat
            } else {
                0nat
            },
    {
        if let Some(inner) = &mut self.m_inner {
            let start = (frames_range.start.start_addr().as_usize() / 4096) as usize;
            let end = (frames_range.end.start_addr().as_usize() / 4096) as usize;
            inner.free_bits(start, end);
            self.m_given_back = Ghost(self.m_given_back@ + (end - start) as nat);
        }
    }

    /// Makes the given frame available for further allocations
    pub fn add_phys_frame(&mut self, phys_frame: PhysFrame)
        requires
            old(self).wf(),
            old(self).is_initialized() ==> {
                &&& ((phys_frame@ / 4096) as int) < old(self).bits().len()
                &&& old(self).m_added_frames < usize::MAX
            },
        ensures
            final(self).wf(),
            final(self).is_initialized() == old(self).is_initialized(),
            final(self).allocated() == old(self).allocated(),
            old(self).is_initialized() ==> final(self).bits() == old(self).bits().update(
                ((phys_frame@ / 4096) as int),
                true,
            ),
            old(self).is_initialized() ==> final(self).m_added_frames == old(self).m_added_frames
                + 1,
            !old(self).is_initialized() ==> final(self).bits() == old(self).bits()
                && final(self).m_added_frames == old(self).m_added_frames,
            final(self).m_initial_allocated == old(self).m_initial_allocated,
            final(self).m_handed_out == old(self).m_handed_out,
            final(self).m_given_back == old(self).m_given_back,
    {
        if let Some(inner) = &mut self.m_inner {
            inner.add_bit((phys_frame.start_addr().as_usize() / 4096) as usize);
            self.m_added_frames = self.m_added_frames + 1;
        }
    }

    /// Returns the amount of allocated memory in bytes: the frames accounted
    /// by `init`, plus those handed out by the allocations, less those given
    /// back by the frees; nothing before `init`
    pub fn allocated_mem(&self) -> (r: u64)
        requires
            self.wf(),
            self.allocated() * 4096 <= u64::MAX,
        ensures
            r == self.allocated() * 4096,
            r == 4096 * (self.m_initial_allocated@ + self.m_handed_out@ - self.m_given_back@),
            !self.is_initialized() ==> r == 0,
    {
        match &self.m_inner {
            Some(inner) => inner.allocated_bits() as u64 * 4096,
            None => 0,
        }
    }

    /// Returns the number of frames given with `add_phys_frame`
    pub fn added_frames(&self) -> (r: usize)
        ensures
            r == self.m_added_frames,
    {
        self.m_added_frames
    }
}

proof fn lemma_frame_of_page_index(index: int)
    requires
        0 <= index,
        index * 4096 <= u64::MAX,
    ensures
        ({
            let a = (index * 4096) % (PHYS_ADDR_SPAN as int);
            a - a % 4096 == frame_addr_of_index(index)
        }),
{
    let a = (index * 4096) % (PHYS_ADDR_SPAN as int);
    assert(a % 4096 == 0) by (nonlinear_arith)
        requires
            a == (index * 4096) % 0x10_0000_0000_0000,
            index >= 0,
    {
        vstd::arithmetic::div_mod::lemma_mod_mod(index * 4096, 4096, 0x100_0000_0000);
        vstd::arithmetic::div_mod::lemma_mod_multiples_basic(index, 4096);
    }
}

/// Value of the bit `k` (0 is the least significant) of the byte `b`
pub open spec fn byte_bit(b: u8, k: int) -> bool {
    (b >> (k as u8)) & 1u8 == 1u8
}

/// The bits of a byte buffer: bit `i` is bit `i % 8` of byte `i / 8`
pub open spec fn bits_of(bytes: Seq<u8>) -> Seq<bool> {
    Seq::new(bytes.len() * 8, |i: int| byte_bit(bytes[i / 8], i % 8))
}

/// `bits` with the bits in `[start, end)` replaced by `value`
pub open spec fn fill_range(bits: Seq<bool>, start: int, end: int, value: bool) -> Seq<bool> {
    Seq::new(bits.len(), |i: int| if start <= i < end { value } else { bits[i] })
}

/// `i` is the first available (set) bit of `bits`
pub open spec fn is_first_available(bits: Seq<bool>, i: int) -> bool {
    &&& 0 <= i < bits.len()
    &&& bits[i]
    &&& forall|j: int| 0 <= j < i ==> !bits[j]
}

/// No bit of `bits` is available
pub open spec fn none_available(bits: Seq<bool>) -> bool {
    forall|j: int| 0 <= j < bits.len() ==> !bits[j]
}

/// Every byte of `bytes` in `[start, start + count)` has all its bits available
pub open spec fn block_available(bytes: Seq<u8>, start: int, count: int) -> bool {
    forall|j: int| start <= j < start + count ==> bytes[j] == 0xffu8
}

/// The byte offsets where a block of `count` bytes fits in a buffer of `len`
/// bytes
pub open spec fn is_block_candidate(len: int, count: int, b: int) -> bool {
    0 <= b && b + count <= len
}

/// `b` is the first visited block of `count` bytes whose bits are all available
pub open spec fn is_first_free_block(bytes: Seq<u8>, count: int, b: int) -> bool {
    &&& is_block_candidate(bytes.len() as int, count, b)
    &&& block_available(bytes, b, count)
    &&& forall|c: int|
        #![trigger is_block_candidate(bytes.len() as int, count, c)]
        is_block_candidate(bytes.len() as int, count, c) && c < b ==> !block_available(
            bytes,
            c,
            count,
        )
}

/// No visited block of `count` bytes has all its bits available
pub open spec fn no_free_block(bytes: Seq<u8>, count: int) -> bool {
    forall|c: int|
        #![trigger is_block_candidate(bytes.len() as int, count, c)]
        is_block_candidate(bytes.len() as int, count, c) ==> !block_available(bytes, c, count)
}

proof fn lemma_byte_bits(b: u8, k: u8, j: u8)
    requires
        k < 8,
        j < 8,
    ensures
        ((b | (1u8 << k)) >> j) & 1u8 == if j == k { 1u8 } else { (b >> j) & 1u8 },
        ((b & !(1u8 << k)) >> j) & 1u8 == if j == k { 0u8 } else { (b >> j) & 1u8 },
        (b >> j) & 1u8 == 1u8 || (b >> j) & 1u8 == 0u8,
{
    assert(((b | (1u8 << k)) >> j) & 1u8 == if j == k { 1u8 } else { (b >> j) & 1u8 })
        by (bit_vector)
        requires
            k < 8,
            j < 8,
    ;
    assert(((b & !(1u8 << k)) >> j) & 1u8 == if j == k { 0u8 } else { (b >> j) & 1u8 })
        by (bit_vector)
        requires
            k < 8,
            j < 8,
    ;
    assert((b >> j) & 1u8 == 1u8 || (b >> j) & 1u8 == 0u8) by (bit_vector);
}

/// Implements the bitmap allocator algorithm.
///
/// It works on bit indexes only, and allocates them one at a time or as a
/// contiguous block. Each bit set to 1 is available, 0 is unavailable.
pub struct BitMapAllocatorInner {
    pub m_bits: Vec<u8>,
    pub m_allocated_bits: usize,
}

impl BitMapAllocatorInner {
    /// The bits of the bitmap, `true` for the available ones
    pub open spec fn bits(&self) -> Seq<bool> {
        bits_of(self.m_bits@)
    }

    /// The number of allocated bits counted so far
    pub open spec fn allocated(&self) -> nat {
        self.m_allocated_bits as nat
    }

    /// Every bit index of the bitmap fits a `usize`
    pub open spec fn wf(&self) -> bool {
        self.m_bits@.len() * 8 <= usize::MAX
    }

    /// Constructs a `BitMapAllocatorInner` over the given bitmap bytes, which
    /// are all set to 0 (no bit available), with `allocated_bits` bits
    /// accounted as allocated
    pub fn new(bitmap: Vec<u8>, allocated_bits: usize) -> (r: Self)
        requires
            bitmap@.len() * 8 <= usize::MAX,
        ensures
            r.wf(),
            r.m_bits@ == Seq::new(bitmap@.len(), |i: int| 0u8),
            r.bits() == Seq::new(bitmap@.len() * 8, |i: int| false),
            r.m_allocated_bits == allocated_bits,
    {
        let mut bits = bitmap;
        let n = bits.len();
        let mut k: usize = 0;
        while k < n
            invariant
                n == bits@.len(),
                k <= n,
                forall|i: int| 0 <= i < k ==> bits@[i] == 0u8,
            decreases n - k,
        {
            bits.set(k, 0u8);
            k = k + 1;
        }
        assert(bits@ =~= Seq::new(n as nat, |i: int| 0u8));
        let r = Self { m_bits: bits, m_allocated_bits: allocated_bits };
        assert forall|i: int| 0 <= i < n * 8 implies !#[trigger] r.bits()[i] by {
            let k = (i % 8) as u8;
            assert(r.m_bits@[i / 8] == 0u8);
            assert((0u8 >> k) & 1u8 == 0u8) by (bit_vector);
        }
        assert(r.bits() =~= Seq::new((n * 8) as nat, |i: int| false));
        r
    }

    /// Returns whether the bit `bit_index` is available
    pub fn bit_at(&self, bit_index: usize) -> (r: bool)
        requires
            self.wf(),
            bit_index < self.bits().len(),
        ensures
            r == self.bits()[bit_index as int],
    {
        let byte = self.m_bits[bit_index / 8];
        let k = (bit_index % 8) as u8;
        (byte >> k) & 1u8 == 1u8
    }

    /// Sets the bit `bit_index` to `value`
    pub fn set_bit(&mut self, bit_index: usize, value: bool)
        requires
            old(self).wf(),
            bit_index < old(self).bits().len(),
        ensures
            final(self).wf(),
            final(self).bits() == old(self).bits().update(bit_index as int, value),
            final(self).m_bits@.len() == old(self).m_bits@.len(),
            final(self).m_allocated_bits == old(self).m_allocated_bits,
    {
        let byte_index = bit_index / 8;
        let k = (bit_index % 8) as u8;
        let old_byte = self.m_bits[byte_index];
        let new_byte = if value {
            old_byte | (1u8 << k)
        } else {
            old_byte & !(1u8 << k)
        };
        self.m_bits.set(byte_index, new_byte);
        proof {
            let old_bits = old(self).bits();
            let new_bits = self.bits();
            assert forall|i: int| 0 <= i < new_bits.len() implies new_bits[i] == old_bits.update(
                bit_index as int,
                value,
            )[i] by {
                if i / 8 == byte_index as int {
                    lemma_byte_bits(old_byte, k, (i % 8) as u8);
                }
            }
            assert(new_bits =~= old_bits.update(bit_index as int, value));
        }
    }

    /// Returns the index of the first available bit, marking it as allocated
    pub fn allocate_bit(&mut self) -> (r: Option<usize>)
        requires
            old(self).wf(),
            !none_available(old(self).bits()) ==> old(self).m_allocated_bits < usize::MAX,
        ensures
            final(self).wf(),
            final(self).m_bits@.len() == old(self).m_bits@.len(),
            match r {
                Some(i) => {
                    &&& is_first_available(old(self).bits(), i as int)
                    &&& final(self).bits() == old(self).bits().update(i as int, false)
                    &&& final(self).allocated() == old(self).allocated() + 1
                },
                None => {
                    &&& none_available(old(self).bits())
                    &&& final(self).bits() == old(self).bits()
                    &&& final(self).allocated() == old(self).allocated()
                },
            },
    {
        match self.find_bit() {
            Some(abs_bit_index) => {
                self.set_bit(abs_bit_index, false);
                self.m_allocated_bits = self.m_allocated_bits + 1;
                Some(abs_bit_index)
            },
            None => None,
        }
    }

    /// Returns the index of the first available bit
    pub fn find_bit(&self) -> (r: Option<usize>)
        requires
            self.wf(),
        ensures
            match r {
                Some(i) => is_first_available(self.bits(), i as int),
                None => none_available(self.bits()),
            },
    {
        let bits_count = self.m_bits.len() * 8;
        let mut i: usize = 0;
        while i < bits_count
            invariant
                self.wf(),
                bits_count == self.bits().len(),
                i <= bits_count,
                forall|j: int| 0 <= j < i ==> !self.bits()[j],
            decreases bits_count - i,
        {
            if self.bit_at(i) {
                return Some(i);
            }
            i = i + 1;
        }
        None
    }

    /// Returns the range of `bits_count` contiguous bits, starting at a byte
    /// boundary, that this call marked as allocated, if any was available
    pub fn allocate_bits(&mut self, bits_count: usize, alignment: usize) -> (r: Option<
        (usize, usize),
    >)
        requires
            old(self).wf(),
            bits_count % 8 == 0,
            8 <= bits_count,
            bits_count / 8 <= old(self).m_bits@.len(),
            !no_free_block(old(self).m_bits@, (bits_count / 8) as int) ==> old(self).m_allocated_bits
                + bits_count <= usize::MAX,
        ensures
            final(self).wf(),
            final(self).m_bits@.len() == old(self).m_bits@.len(),
            match r {
                Some((start, end)) => {
                    &&& start % 8 == 0
                    &&& is_first_free_block(old(self).m_bits@, (bits_count / 8) as int, (start / 8) as int)
                    &&& end == start + bits_count
                    &&& final(self).bits() == fill_range(
                        old(self).bits(),
                        start as int,
                        end as int,
                        false,
                    )
                    &&& final(self).allocated() == old(self).allocated() + bits_count
                },
                None => {
                    &&& no_free_block(old(self).m_bits@, (bits_count / 8) as int)
                    &&& final(self).bits() == old(self).bits()
                    &&& final(self).allocated() == old(self).allocated()
                },
            },
    {
        match self.find_first_free_aligned_block(bits_count, alignment) {
            Some(first_free_block_bit) => {
                let end = first_free_block_bit + bits_count;
                let mut bit_index = first_free_block_bit;
                while bit_index < end
                    invariant
                        self.wf(),
                        self.m_bits@.len() == old(self).m_bits@.len(),
                        self.m_allocated_bits == old(self).m_allocated_bits,
                        first_free_block_bit <= bit_index <= end,
                        end <= self.bits().len(),
                        self.bits() == fill_range(
                            old(self).bits(),
                            first_free_block_bit as int,
                            bit_index as int,
                            false,
                        ),
                    decreases end - bit_index,
                {
                    self.set_bit(bit_index, false);
                    bit_index = bit_index + 1;
                    assert(self.bits() =~= fill_range(
                        old(self).bits(),
                        first_free_block_bit as int,
                        bit_index as int,
                        false,
                    ));
                }
                self.m_allocated_bits = self.m_allocated_bits + bits_count;
                Some((first_free_block_bit, end))
            },
            None => None,
        }
    }

    /// Makes available again the given bit
    pub fn free_bit(&mut self, bit_index: usize)
        requires
            old(self).wf(),
            bit_index < old(self).bits().len(),
            !old(self).bits()[bit_index as int],
            old(self).m_allocated_bits >= 1,
        ensures
            final(self).wf(),
            final(self).m_bits@.len() == old(self).m_bits@.len(),
            final(self).bits() == old(self).bits().update(bit_index as int, true),
            final(self).allocated() == old(self).allocated() - 1,
    {
        self.set_bit(bit_index, true);
        self.m_allocated_bits = self.m_allocated_bits - 1;
    }

    /// Makes available again the bits in `[start, end)`
    pub fn free_bits(&mut self, start: usize, end: usize)
        requires
            old(self).wf(),
            start <= end <= old(self).bits().len(),
            old(self).m_allocated_bits >= end - start,
        ensures
            final(self).wf(),
            final(self).m_bits@.len() == old(self).m_bits@.len(),
            final(self).bits() == fill_range(old(self).bits(), start as int, end as int, true),
            final(self).allocated() == old(self).allocated() - (end - start),
    {
        self.m_allocated_bits = self.m_allocated_bits - (end - start);
        let mut bit_index = start;
        while bit_index < end
            invariant
                self.wf(),
                self.m_bits@.len() == old(self).m_bits@.len(),
                self.m_allocated_bits == old(self).m_allocated_bits - (end - start),
                start <= bit_index <= end,
                end <= self.bits().len(),
                self.bits() == fill_range(old(self).bits(), start as int, bit_index as int, true),
            decreases end - bit_index,
        {
            self.set_bit(bit_index, true);
            bit_index = bit_index + 1;
            assert(self.bits() =~= fill_range(
                old(self).bits(),
                start as int,
                bit_index as int,
                true,
            ));
        }
    }

    /// Makes the given bit available for allocations
    pub fn add_bit(&mut self, bit_index: usize)
        requires
            old(self).wf(),
            bit_index < old(self).bits().len(),
        ensures
            final(self).wf(),
            final(self).m_bits@.len() == old(self).m_bits@.len(),
            final(self).bits() == old(self).bits().update(bit_index as int, true),
            final(self).allocated() == old(self).allocated(),
    {
        self.set_bit(bit_index, true);
    }

    /// Returns the current amount of allocated bits
    pub fn allocated_bits(&self) -> (r: usize)
        ensures
            r == self.m_allocated_bits,
    {
        self.m_allocated_bits
    }

    /// Finds the first byte-aligned block of `bits_count` bits whose bytes
    /// are all available
    pub fn find_first_free_aligned_block(&self, bits_count: usize, _alignment: usize) -> (r:
        Option<usize>)
        requires
            self.wf(),
            8 <= bits_count,
            bits_count / 8 <= self.m_bits@.len(),
        ensures
            match r {
                Some(first_bit) => {
                    &&& first_bit % 8 == 0
                    &&& is_first_free_block(self.m_bits@, (bits_count / 8) as int, (first_bit / 8) as int)
                },
                None => no_free_block(self.m_bits@, (bits_count / 8) as int),
            },
    {
        let bytes_count = bits_count / 8;
        let limit = self.m_bits.len() - bytes_count;
        let mut byte_index: usize = 0;
        while byte_index <= limit
            invariant
                self.wf(),
                bytes_count == bits_count / 8,
                bytes_count >= 1,
                limit == self.m_bits@.len() - bytes_count,
                byte_index <= limit + 1,
                forall|c: int|
                    #![trigger is_block_candidate(self.m_bits@.len() as int, bytes_count as int, c)]
                    is_block_candidate(self.m_bits@.len() as int, bytes_count as int, c) && c
                        < byte_index ==> !block_available(self.m_bits@, c, bytes_count as int),
            decreases limit + 1 - byte_index,
        {
            if Self::is_slice_all_available(&self.m_bits, byte_index, bytes_count) {
                assert((byte_index * 8) / 8 == byte_index);
                return Some(byte_index * 8);
            }
            byte_index = byte_index + 1;
        }
        None
    }

    /// Returns whether the `count` bytes of `bytes` from `start` have all
    /// their bits available
    pub fn is_slice_all_available(bytes: &Vec<u8>, start: usize, count: usize) -> (r: bool)
        requires
            start + count <= bytes@.len(),
        ensures
            r == block_available(bytes@, start as int, count as int),
    {
        let len = bytes.len();
        let mut j: usize = 0;
        while j < count
            invariant
                len == bytes@.len(),
                start + count <= bytes@.len(),
                j <= count,
                block_available(bytes@, start as int, j as int),
            decreases count - j,
        {
            if bytes[start + j] != 0xffu8 {
                return false;
            }
            j = j + 1;
        }
        true
    }
}

} // verus!

verus! {

proof fn lemma_frame_index_round_trip(index: int)
    requires
        0 <= index,
        index * 4096 < PHYS_ADDR_SPAN,
    ensures
        frame_addr_of_index(index) / 4096 == index,
{
    assert(frame_addr_of_index(index) == index * 4096) by {
        vstd::arithmetic::div_mod::lemma_small_mod(
            (index * 4096) as nat,
            PHYS_ADDR_SPAN as nat,
        );
    }
    assert((index * 4096) / 4096 == index) by {
        vstd::arithmetic::div_mod::lemma_div_by_multiple(index, 4096);
    }
}

/// Law: freeing the frame that `allocate_one` handed out restores the
/// allocator's bitmap and allocated count as they were before the allocation
pub proof fn lemma_free_one_undoes_allocate_one(
    before: BitMapAllocator,
    after_alloc: BitMapAllocator,
    after_free: BitMapAllocator,
    frame: PhysFrame,
    i: int,
)
    requires
        before.wf(),
        before.is_initialized(),
        i * 4096 < PHYS_ADDR_SPAN,
        is_first_available(before.bits(), i),
        frame@ == frame_addr_of_index(i),
        after_alloc.bits() == before.bits().update(i, false),
        after_alloc.allocated() == before.allocated() + 1,
        after_free.bits() == after_alloc.bits().update((frame@ / 4096) as int, true),
        after_free.allocated() == after_alloc.allocated() - 1,
    ensures
        after_free.bits() == before.bits(),
        after_free.allocated() == before.allocated(),
{
    lemma_frame_index_round_trip(i);
    assert(before.bits().update(i, false).update(i, true) =~= before.bits());
}

/// Every bit of a full byte is available
proof fn lemma_full_byte_bits(k: int)
    requires
        0 <= k < 8,
    ensures
        byte_bit(0xffu8, k),
{
    let kk = k as u8;
    assert((0xffu8 >> kk) & 1u8 == 1u8) by (bit_vector)
        requires
            kk < 8,
    ;
}

/// Clearing then setting again the bits of a free block gives the bits back
proof fn lemma_fill_ranges_cancel(
    bytes: Seq<u8>,
    count: int,
    b: int,
)
    requires
        count >= 1,
        is_first_free_block(bytes, count, b),
        (b + count) * 8 * 4096 < PHYS_ADDR_SPAN,
    ensures
        ({
            let bits = bits_of(bytes);
            let start = b * 8;
            let end = start + count * 8;
            fill_range(
                fill_range(bits, start, end, false),
                frame_addr_of_index(start) / 4096,
                frame_addr_of_index(end) / 4096,
                true,
            ) == bits
        }),
{
    let bits = bits_of(bytes);
    let start = b * 8;
    let end = start + count * 8;
    assert(end == (b + count) * 8);
    lemma_frame_index_round_trip(start);
    lemma_frame_index_round_trip(end);
    assert forall|i: int| start <= i < end implies bits[i] by {
        assert(b <= i / 8 < b + count);
        lemma_full_byte_bits(i % 8);
    }
    assert(fill_range(fill_range(bits, start, end, false), start, end, true) =~= bits);
}

/// Law: freeing the frame range that `allocate_contiguous` handed out, whose
/// block starts at the frame `start`, restores the allocator's bitmap and
/// allocated count as they were before the allocation
pub proof fn lemma_free_contiguous_undoes_allocate_contiguous(
    before: BitMapAllocator,
    after_alloc: BitMapAllocator,
    after_free: BitMapAllocator,
    frames_count: usize,
    range: PhysFrameRange,
    start: int,
)
    requires
        before.wf(),
        before.is_initialized(),
        frames_count % 8 == 0,
        8 <= frames_count,
        (start + frames_count) * 4096 < PHYS_ADDR_SPAN,
        start % 8 == 0,
        is_first_free_block(before.m_inner->0.m_bits@, (frames_count / 8) as int, start / 8),
        range.start@ == frame_addr_of_index(start),
        range.end@ == frame_addr_of_index(start + frames_count),
        after_alloc.bits() == fill_range(before.bits(), start, start + frames_count, false),
        after_alloc.allocated() == before.allocated() + frames_count,
        after_free.bits() == fill_range(
            after_alloc.bits(),
            (range.start@ / 4096) as int,
            (range.end@ / 4096) as int,
            true,
        ),
        after_free.allocated() == after_alloc.allocated() - ((range.end@ / 4096) as int - (
        range.start@ / 4096) as int),
    ensures
        after_free.bits() == before.bits(),
        after_free.allocated() == before.allocated(),
{
    let b = start / 8;
    let count = (frames_count / 8) as int;
    assert(b * 8 == start);
    assert(count * 8 == frames_count);
    lemma_fill_ranges_cancel(before.m_inner->0.m_bits@, count, b);
    lemma_frame_index_round_trip(start);
    lemma_frame_index_round_trip(start + frames_count);
}

/// The frame that `allocate_one` hands out was available before, is no
/// longer available after, and every frame before it was unavailable
pub proof fn lemma_allocate_one_takes_first_available(bits: Seq<bool>, i: int)
    requires
        is_first_available(bits, i),
    ensures
        bits[i],
        !bits.update(i, false)[i],
        forall|j: int| 0 <= j < bits.len() && j != i ==> bits.update(i, false)[j] == bits[j],
        forall|j: int| 0 <= j < i ==> !bits[j],
{
}

/// Law: `add_phys_frame` calls made before `init` count nothing. An
/// allocator that is not initialized, whatever calls it went through, has
/// added no frame and accounts nothing as allocated; `init` then starts the
/// count from there, so that after the `adds` calls of `add_phys_frame` made
/// since `init`, each of which adds one, `added_frames` is `adds`
pub proof fn lemma_adds_before_init_count_nothing(
    uninitialized: BitMapAllocator,
    after_init: BitMapAllocator,
    after_adds: BitMapAllocator,
    adds: nat,
)
    requires
        uninitialized.wf(),
        !uninitialized.is_initialized(),
        after_init.is_initialized(),
        after_init.m_added_frames == uninitialized.m_added_frames,
        after_adds.m_added_frames == after_init.m_added_frames + adds,
    ensures
        uninitialized.m_added_frames == 0,
        uninitialized.allocated() == 0,
        after_init.m_added_frames == 0,
        after_adds.m_added_frames == adds,
{
}

} // verus!
