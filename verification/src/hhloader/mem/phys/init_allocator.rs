//! Initial physical memory allocator
use vstd::prelude::*;
use crate::addr::phys::PhysAddr;
use crate::arch::x86_64::addr::phys::PHYS_ADDR_SPAN;
use crate::mem::frame::{PhysFrame, PAGE_4KIB_SIZE};

verus! {

/// A physical memory area given by the bootloader: its first address and its
/// size in bytes
#[derive(Clone, Copy, PartialEq, Eq, Structural, Debug)]
pub struct BootMemArea {
    pub start: u64,
    pub size: u64,
}

/// Amount of 4 KiB steps that fit in the area, the last one partial included
pub open spec fn area_frame_count(area: BootMemArea) -> nat {
    ((area.size + 4095) / 4096) as nat
}

/// The frames that contain each 4 KiB step of the area
pub open spec fn area_frames(area: BootMemArea) -> Seq<u64> {
    Seq::new(
        area_frame_count(area),
        |k: int| ((area.start + k * 4096) - (area.start + k * 4096) % 4096) as u64,
    )
}

/// The frames of all the areas, one area after the other
pub open spec fn boot_frames(areas: Seq<BootMemArea>) -> Seq<u64>
    decreases areas.len(),
{
    if areas.len() == 0 {
        Seq::empty()
    } else {
        boot_frames(areas.drop_last()) + area_frames(areas.last())
    }
}

/// Each area lies inside the physical address space
pub open spec fn areas_in_span(areas: Seq<BootMemArea>) -> bool {
    forall|i: int| 0 <= i < areas.len() ==> #[trigger] areas[i].start + areas[i].size < PHYS_ADDR_SPAN
}

/// Allocator that walks the boot memory areas frame by frame: the n-th
/// allocation gives the n-th frame of the areas
pub struct HHLPreInitAllocator {
    pub m_next_frame: u64,
}

proof fn lemma_boot_frames_step(areas: Seq<BootMemArea>, i: int)
    requires
        0 <= i < areas.len(),
    ensures
        boot_frames(areas.take(i + 1)) == boot_frames(areas.take(i)) + area_frames(areas[i]),
{
    assert(areas.take(i + 1).drop_last() =~= areas.take(i));
}

proof fn lemma_step_inside_area(size: u64, remaining: u64)
    requires
        remaining < (size + 4095) / 4096,
    ensures
        remaining * 4096 < size,
{
    assert(remaining * 4096 < size) by (nonlinear_arith)
        requires
            remaining < (size + 4095) / 4096,
    ;
}

impl HHLPreInitAllocator {
    /// Constructs the allocator at the first frame of the areas
    pub fn new() -> (r: Self)
        ensures
            r.m_next_frame == 0,
    {
        Self { m_next_frame: 0 }
    }

    /// Sets the index of the next frame to the page number of
    /// `first_usable_frame`
    pub fn start_after(&mut self, first_usable_frame: PhysFrame)
        ensures
            final(self).m_next_frame == first_usable_frame@ / 4096,
    {
        self.m_next_frame = first_usable_frame.start_addr().as_usize() / PAGE_4KIB_SIZE;
    }

    /// Returns the next frame of the areas, `None` when they have no more
    pub fn allocate(&mut self, areas: &[BootMemArea]) -> (r: Option<PhysFrame>)
        requires
            areas_in_span(areas@),
            boot_frames(areas@).len() <= u64::MAX,
        ensures
            old(self).m_next_frame < boot_frames(areas@).len() ==> {
                &&& r matches Some(frame)
                &&& frame@ == boot_frames(areas@)[old(self).m_next_frame as int]
                &&& final(self).m_next_frame == old(self).m_next_frame + 1
            },
            old(self).m_next_frame >= boot_frames(areas@).len() ==> r is None && *final(self)
                == *old(self),
    {
        let n = areas.len();
        let mut base: u64 = 0;
        let mut i: usize = 0;
        while i < n
            invariant
                n == areas@.len(),
                i <= n,
                areas_in_span(areas@),
                base == boot_frames(areas@.take(i as int)).len(),
                base <= self.m_next_frame,
                *self == *old(self),
                boot_frames(areas@).len() <= u64::MAX,
            decreases n - i,
        {
            let area = areas[i];
            proof {
                lemma_boot_frames_step(areas@, i as int);
                assert(areas@[i as int] == area);
            }
            let count: u64 = (area.size + 4095) / 4096;
            let remaining = self.m_next_frame - base;
            if remaining < count {
                proof {
                    lemma_step_inside_area(area.size, remaining);
                    assert(areas@.take(n as int) =~= areas@);
                    assert(boot_frames(areas@.take(i as int + 1)).len() <= boot_frames(areas@).len())
                        by {
                        lemma_boot_frames_prefix(areas@, i as int + 1);
                    }
                    lemma_boot_frames_prefix(areas@, i as int + 1);
                }
                let raw = area.start + remaining * 4096;
                let addr = PhysAddr::new(raw);
                proof {
                    assert(area.start + area.size < PHYS_ADDR_SPAN);
                    assert(raw % PHYS_ADDR_SPAN == raw);
                    assert(boot_frames(areas@.take(i as int + 1))[base + remaining] == area_frames(area)[remaining as int]);
                }
                let frame = addr.containing_frame();
                self.m_next_frame = self.m_next_frame + 1;
                return Some(frame);
            }
            base = base + count;
            i = i + 1;
        }
        proof {
            assert(areas@.take(n as int) =~= areas@);
        }
        None
    }

    /// Returns the amount of frames allocated so far
    pub fn allocated_frames(&self) -> (r: u64)
        ensures
            r == self.m_next_frame,
    {
        self.m_next_frame
    }
}

/// The frames of a prefix of the areas are a prefix of the frames of all the
/// areas
proof fn lemma_boot_frames_prefix(areas: Seq<BootMemArea>, i: int)
    requires
        0 <= i <= areas.len(),
    ensures
        boot_frames(areas.take(i)).len() <= boot_frames(areas).len(),
        forall|k: int|
            0 <= k < boot_frames(areas.take(i)).len() ==> #[trigger] boot_frames(areas.take(i))[k]
                == boot_frames(areas)[k],
    decreases areas.len() - i,
{
    if i == areas.len() {
        assert(areas.take(i) =~= areas);
    } else {
        lemma_boot_frames_step(areas, i);
        lemma_boot_frames_prefix(areas, i + 1);
        assert forall|k: int| 0 <= k < boot_frames(areas.take(i)).len() implies #[trigger] boot_frames(areas.take(i))[k]
            == boot_frames(areas)[k] by {
            assert(boot_frames(areas.take(i + 1))[k] == boot_frames(areas.take(i))[k]);
        }
    }
}

} // verus!
