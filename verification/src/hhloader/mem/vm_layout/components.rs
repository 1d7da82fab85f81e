//! VM components manager
use vstd::prelude::*;
use crate::align::{align_down, align_up, lemma_page_sizes_are_powers_of_two, spec_align_down, spec_align_up};
use crate::mem::frame::{PAGE_2MIB_SIZE, PAGE_4KIB_SIZE};

verus! {

/// Size in bytes of the kernel stack area
pub const KERN_STACK_SIZE: u64 = 64 * 1024;

/// The VM components that can be randomized, with their size
#[derive(Clone, Copy, PartialEq, Eq, Structural, Debug)]
pub enum VMComponent {
    KernHeap(u64),
    KernStack(u64),
    PhysMemBitmap(u64),
    PhysMemMapping(u64),
    PageCache(u64),
    TmpMapping(u64),
    /// No component: the placeholder of an empty slot
    Empty,
}

impl VMComponent {
    /// Amount of valid variants (`Empty` excluded)
    pub const COUNT: usize = 6;

    /// The ordinal value of the variant
    pub open spec fn spec_value(self) -> int {
        match self {
            VMComponent::KernHeap(_) => 0,
            VMComponent::KernStack(_) => 1,
            VMComponent::PhysMemBitmap(_) => 2,
            VMComponent::PhysMemMapping(_) => 3,
            VMComponent::PageCache(_) => 4,
            VMComponent::TmpMapping(_) => 5,
            VMComponent::Empty => 6,
        }
    }

    /// The size the variant holds
    pub open spec fn spec_size(self) -> u64 {
        match self {
            VMComponent::KernHeap(v) => v,
            VMComponent::KernStack(v) => v,
            VMComponent::PhysMemBitmap(v) => v,
            VMComponent::PhysMemMapping(v) => v,
            VMComponent::PageCache(v) => v,
            VMComponent::TmpMapping(v) => v,
            VMComponent::Empty => 0,
        }
    }

    /// The alignment of the variant's area
    pub open spec fn spec_alignment(self) -> u64 {
        match self {
            VMComponent::PhysMemMapping(_) | VMComponent::TmpMapping(_) => PAGE_2MIB_SIZE,
            _ => PAGE_4KIB_SIZE,
        }
    }

    /// The variant's area can shrink
    pub open spec fn spec_is_shrinkable(self) -> bool {
        self is KernHeap || self is PageCache
    }

    /// Returns the size of the current variant
    pub fn size(&self) -> (r: u64)
        requires
            !(self is Empty),
        ensures
            r == self.spec_size(),
    {
        match self {
            VMComponent::KernHeap(value) => *value,
            VMComponent::KernStack(value) => *value,
            VMComponent::PhysMemBitmap(value) => *value,
            VMComponent::PhysMemMapping(value) => *value,
            VMComponent::PageCache(value) => *value,
            VMComponent::TmpMapping(value) => *value,
            VMComponent::Empty => 0,
        }
    }

    /// Returns the alignment of the current variant
    pub fn alignment(&self) -> (r: u64)
        requires
            !(self is Empty),
        ensures
            r == self.spec_alignment(),
    {
        match self {
            VMComponent::KernHeap(_)
            | VMComponent::PhysMemBitmap(_)
            | VMComponent::KernStack(_)
            | VMComponent::PageCache(_) => PAGE_4KIB_SIZE,
            _ => PAGE_2MIB_SIZE,
        }
    }

    /// Returns whether the current variant's area could be shrinked
    pub fn is_shrinkable(&self) -> (r: bool)
        requires
            !(self is Empty),
        ensures
            r == self.spec_is_shrinkable(),
    {
        match self {
            VMComponent::KernHeap(_) | VMComponent::PageCache(_) => true,
            _ => false,
        }
    }

    /// Returns the ordinal value of the current variant
    pub fn as_value(&self) -> (r: usize)
        requires
            !(self is Empty),
        ensures
            r == self.spec_value(),
            r < Self::COUNT,
    {
        match self {
            VMComponent::KernHeap(_) => 0,
            VMComponent::KernStack(_) => 1,
            VMComponent::PhysMemBitmap(_) => 2,
            VMComponent::PhysMemMapping(_) => 3,
            VMComponent::PageCache(_) => 4,
            VMComponent::TmpMapping(_) => 5,
            VMComponent::Empty => 6,
        }
    }
}

/// What one extraction step gives
#[derive(Clone, Copy, PartialEq, Eq, Structural, Debug)]
pub enum VMComponentsStep {
    /// The next component to place
    Extracted(VMComponent),
    /// The random value chose a component already extracted: try again with
    /// another one
    Retry,
    /// Every component was extracted
    Done,
}

/// `VMComponent` randomizer and size calculator
pub struct VMComponents {
    pub m_precalculated_components: [VMComponent; 6],
    pub m_last_shrinkable_component: VMComponent,
    pub m_extracted: [bool; 6],
    pub m_extracted_count: usize,
    /// The ordinal values of the components extracted so far, in order
    pub m_order: Ghost<Seq<int>>,
}

/// The sizes that `VMComponents::new` gives to the components, in the order
/// of their ordinal values
pub open spec fn spec_component_sizes(
    bitmap_pages_count: u64,
    kern_space_size: u64,
    total_memory: u64,
) -> Seq<u64> {
    let bitmap_size = bitmap_pages_count * 4096;
    let phys_mem_mapping_size = spec_align_up(total_memory, PAGE_2MIB_SIZE);
    let shrinkable = spec_align_down(
        ((kern_space_size - bitmap_size - phys_mem_mapping_size - KERN_STACK_SIZE - PAGE_2MIB_SIZE)
            / 2) as u64,
        PAGE_4KIB_SIZE,
    );
    seq![
        shrinkable as u64,
        KERN_STACK_SIZE,
        bitmap_size as u64,
        phys_mem_mapping_size as u64,
        shrinkable as u64,
        PAGE_2MIB_SIZE,
    ]
}

impl VMComponents {
    /// The state is consistent: each precalculated component sits at its
    /// ordinal value, the extracted flags mark the components returned so far
    /// and the last shrinkable one, which is returned last
    pub open spec fn wf(&self) -> bool {
        let order = self.m_order@;
        let last = self.m_last_shrinkable_component.spec_value();
        &&& forall|i: int|
            0 <= i < 6 ==> (#[trigger] self.m_precalculated_components@[i]).spec_value() == i
        &&& (last == 0 || last == 4)
        &&& self.m_last_shrinkable_component == self.m_precalculated_components@[last]
        &&& self.m_extracted_count <= 6
        &&& order.len() == self.m_extracted_count
        &&& forall|j: int, k: int| 0 <= j < k < order.len() ==> order[j] != order[k]
        &&& forall|j: int| 0 <= j < order.len() ==> 0 <= #[trigger] order[j] < 6
        &&& self.m_extracted_count < 6 ==> forall|j: int| 0 <= j < order.len() ==> #[trigger] order[j] != last
        &&& self.m_extracted_count == 6 ==> order[5] == last
        &&& forall|i: int|
            0 <= i < 6 ==> (#[trigger] self.m_extracted@[i] <==> (i == last || order.contains(i)))
    }

    /// Constructs the `VMComponents` and calculates the size of each
    /// component; `random_value` chooses which shrinkable component is placed
    /// last: the page cache when even, the kernel heap when odd
    pub fn new(bitmap_pages_count: u64, kern_space_size: u64, total_memory: u64, random_value: u64) -> (r: Self)
        requires
            bitmap_pages_count * 4096 <= u64::MAX,
            total_memory + PAGE_2MIB_SIZE - 1 <= u64::MAX,
            kern_space_size >= bitmap_pages_count * 4096 + spec_align_up(total_memory, PAGE_2MIB_SIZE)
                + KERN_STACK_SIZE + PAGE_2MIB_SIZE,
        ensures
            r.wf(),
            r.m_extracted_count == 0,
            forall|i: int|
                0 <= i < 6 ==> (#[trigger] r.m_precalculated_components@[i]).spec_size()
                    == spec_component_sizes(bitmap_pages_count, kern_space_size, total_memory)[i],
            r.m_last_shrinkable_component.spec_value() == if random_value % 2 == 0 { 4int } else { 0int },
    {
        proof {
            lemma_page_sizes_are_powers_of_two();
        }
        /* calculate the size of the VM components from the given parameters */
        let bitmap_size = bitmap_pages_count * 4096;
        let phys_mem_mapping_size = align_up(total_memory, PAGE_2MIB_SIZE);
        let kern_stack_size = KERN_STACK_SIZE;
        let tmp_map_size = PAGE_2MIB_SIZE;

        /* shrinkable components fit the remaining space in the same size */
        let shrinkable_component_size = align_down(
            (kern_space_size - bitmap_size - phys_mem_mapping_size - kern_stack_size - tmp_map_size)
                / 2,
            PAGE_4KIB_SIZE,
        );
        let precalculated = [
            VMComponent::KernHeap(shrinkable_component_size),
            VMComponent::KernStack(kern_stack_size),
            VMComponent::PhysMemBitmap(bitmap_size),
            VMComponent::PhysMemMapping(phys_mem_mapping_size),
            VMComponent::PageCache(shrinkable_component_size),
            VMComponent::TmpMapping(tmp_map_size),
        ];

        /* one of the shrinkable components goes at the end of the layout, to
         * absorb the alignment discarded by the previous components */
        let last_shrinkable_component = if random_value % 2 == 0 {
            VMComponent::PageCache(0)
        } else {
            VMComponent::KernHeap(0)
        };
        let last = precalculated[last_shrinkable_component.as_value()];
        let mut extracted = [false; 6];
        extracted[last.as_value()] = true;
        let r = Self {
            m_precalculated_components: precalculated,
            m_last_shrinkable_component: last,
            m_extracted: extracted,
            m_extracted_count: 0,
            m_order: Ghost(Seq::empty()),
        };
        assert forall|i: int| 0 <= i < 6 implies (#[trigger] r.m_extracted@[i] <==> (i
            == last.spec_value() || r.m_order@.contains(i))) by {}
        r
    }

    /// Extracts the next component: the component that `random_value` chooses
    /// among the six when it was not extracted yet, the last shrinkable one
    /// when it is the only one left
    pub fn try_next(&mut self, random_value: u64) -> (r: VMComponentsStep)
        requires
            old(self).wf(),
        ensures
            final(self).wf(),
            final(self).m_precalculated_components == old(self).m_precalculated_components,
            final(self).m_last_shrinkable_component == old(self).m_last_shrinkable_component,
            match r {
                VMComponentsStep::Done => old(self).m_extracted_count == 6 && final(self).m_order@
                    == old(self).m_order@ && final(self).m_extracted_count == 6,
                VMComponentsStep::Retry => {
                    &&& old(self).m_extracted_count < 5
                    &&& old(self).m_extracted@[(random_value % 6) as int]
                    &&& final(self).m_order@ == old(self).m_order@
                    &&& final(self).m_extracted_count == old(self).m_extracted_count
                },
                VMComponentsStep::Extracted(c) => {
                    let index = if old(self).m_extracted_count == 5 {
                        old(self).m_last_shrinkable_component.spec_value()
                    } else {
                        (random_value % 6) as int
                    };
                    &&& old(self).m_extracted_count < 6
                    &&& (old(self).m_extracted_count < 5 ==> !old(self).m_extracted@[index])
                    &&& c == old(self).m_precalculated_components@[index]
                    &&& final(self).m_order@ == old(self).m_order@.push(index)
                    &&& final(self).m_extracted_count == old(self).m_extracted_count + 1
                },
            },
    {
        if self.m_extracted_count < VMComponent::COUNT {
            if self.m_extracted_count == VMComponent::COUNT - 1 {
                /* the last component is the special shrinkable one */
                let next_component = self.m_last_shrinkable_component.as_value();
                proof {
                    self.lemma_last_is_missing();
                }
                self.m_extracted_count = self.m_extracted_count + 1;
                self.m_order = Ghost(self.m_order@.push(next_component as int));
                proof {
                    assert forall|i: int| 0 <= i < 6 implies (#[trigger] self.m_extracted@[i] <==> (i
                        == self.m_last_shrinkable_component.spec_value() || self.m_order@.contains(i))) by {
                        lemma_push_contains(old(self).m_order@, next_component as int, i);
                    }
                }
                VMComponentsStep::Extracted(self.m_precalculated_components[next_component])
            } else {
                /* extract a new component index randomly */
                let next_component = (random_value % 6) as usize;
                if !self.m_extracted[next_component] {
                    self.m_extracted[next_component] = true;
                    assert(self.m_extracted@ == old(self).m_extracted@.update(next_component as int, true));
                    self.m_extracted_count = self.m_extracted_count + 1;
                    self.m_order = Ghost(self.m_order@.push(next_component as int));
                    proof {
                        assert forall|i: int| 0 <= i < 6 implies (#[trigger] self.m_extracted@[i] <==> (i
                            == self.m_last_shrinkable_component.spec_value() || self.m_order@.contains(i))) by {
                            lemma_push_contains(old(self).m_order@, next_component as int, i);
                            if i != next_component {
                                assert(self.m_extracted@[i] == old(self).m_extracted@[i]);
                            }
                        }
                        assert(!old(self).m_order@.contains(next_component as int));
                    }
                    VMComponentsStep::Extracted(self.m_precalculated_components[next_component])
                } else {
                    VMComponentsStep::Retry
                }
            }
        } else {
            VMComponentsStep::Done
        }
    }

    /// With five components extracted, the last shrinkable one is the only
    /// one not returned yet
    proof fn lemma_last_is_missing(&self)
        requires
            self.wf(),
            self.m_extracted_count == 5,
        ensures
            !self.m_order@.contains(self.m_last_shrinkable_component.spec_value()),
    {
    }
}

/// Law: the six components fit the kernel space. The two shrinkable
/// components get the same 4 KiB aligned size, at most half of what the
/// other four leave, and less than a page below that half; so all six sizes
/// sum to no more than `kern_space_size`
pub proof fn lemma_component_sizes_fit_kernel_space(
    bitmap_pages_count: u64,
    kern_space_size: u64,
    total_memory: u64,
)
    requires
        bitmap_pages_count * 4096 <= u64::MAX,
        total_memory + PAGE_2MIB_SIZE - 1 <= u64::MAX,
        kern_space_size >= bitmap_pages_count * 4096 + spec_align_up(total_memory, PAGE_2MIB_SIZE)
            + KERN_STACK_SIZE + PAGE_2MIB_SIZE,
    ensures
        ({
            let s = spec_component_sizes(bitmap_pages_count, kern_space_size, total_memory);
            let others = bitmap_pages_count * 4096 + spec_align_up(total_memory, PAGE_2MIB_SIZE)
                + KERN_STACK_SIZE + PAGE_2MIB_SIZE;
            let remaining = kern_space_size - others;
            &&& s[0] == s[4]
            &&& s[0] % 4096 == 0
            &&& 2 * s[0] <= remaining
            &&& remaining - 2 * s[0] < 2 * 4096
            &&& s[1] == KERN_STACK_SIZE
            &&& s[2] == bitmap_pages_count * 4096
            &&& s[3] == spec_align_up(total_memory, PAGE_2MIB_SIZE)
            &&& s[5] == PAGE_2MIB_SIZE
            &&& s[0] + s[1] + s[2] + s[3] + s[4] + s[5] <= kern_space_size
        }),
{
    let t = total_memory;
    let m = PAGE_2MIB_SIZE;
    assert(spec_align_up(t, m) <= t + m - 1) by {
        assert(t % m < m);
    }
    let others = bitmap_pages_count * 4096 + spec_align_up(t, m) + KERN_STACK_SIZE + m;
    let remaining = kern_space_size - others;
    let half = (remaining / 2) as u64;
    assert(half % 4096 < 4096);
    assert(2 * (remaining / 2) <= remaining);
    assert(remaining - 2 * (remaining / 2) <= 1);
}

/// Once all six components are extracted, each ordinal value was returned
/// exactly once, and the last one returned is the last shrinkable component
pub proof fn lemma_extraction_is_permutation(components: VMComponents)
    requires
        components.wf(),
        components.m_extracted_count == 6,
    ensures
        forall|i: int| 0 <= i < 6 ==> components.m_order@.contains(i),
        forall|j: int, k: int|
            0 <= j < k < 6 ==> components.m_order@[j] != components.m_order@[k],
        components.m_order@[5] == components.m_last_shrinkable_component.spec_value(),
{
    let order = components.m_order@;
    assert forall|i: int| 0 <= i < 6 implies order.contains(i) by {
        lemma_missing_value_bound(order, i);
    }
}

/// A value is in a sequence with one more value pushed when it is that value
/// or was in the sequence already
proof fn lemma_push_contains(order: Seq<int>, x: int, i: int)
    ensures
        order.push(x).contains(i) <==> (order.contains(i) || i == x),
{
    if order.contains(i) {
        let j = choose|j: int| 0 <= j < order.len() && order[j] == i;
        assert(order.push(x)[j] == i);
    }
    if i == x {
        assert(order.push(x)[order.len() as int] == i);
    }
    if order.push(x).contains(i) && i != x {
        let j = choose|j: int| 0 <= j < order.push(x).len() && order.push(x)[j] == i;
        assert(order[j] == i);
    }
}

/// Six distinct values in `0..6` hold each value of `0..6`
proof fn lemma_missing_value_bound(order: Seq<int>, i: int)
    requires
        order.len() == 6,
        0 <= i < 6,
        forall|j: int, k: int| 0 <= j < k < order.len() ==> order[j] != order[k],
        forall|j: int| 0 <= j < order.len() ==> 0 <= #[trigger] order[j] < 6,
    ensures
        order.contains(i),
{
    if !order.contains(i) {
        let s = order.to_set();
        let full = vstd::set_lib::set_int_range(0, 6);
        vstd::set_lib::lemma_int_range(0, 6);
        assert(s.subset_of(full.remove(i)));
        order.unique_seq_to_set();
        vstd::set_lib::lemma_len_subset(s, full.remove(i));
    }
}

} // verus!
