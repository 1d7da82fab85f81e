//! Virtual memory layout randomizer
pub mod components;

use vstd::prelude::*;
use crate::align::{align_down, align_up, lemma_page_sizes_are_powers_of_two, spec_align_down, spec_align_up};
use crate::hhloader::mem::vm_layout::components::{VMComponent, VMComponents, VMComponentsStep};

verus! {

/// Kernel space begin (192 TiB)
pub const KERN_SPACE_BEGIN: u64 = 0x0000_c000_0000_0000;

/// A virtual memory area: its first address and its size in bytes
#[derive(Clone, Copy, PartialEq, Eq, Structural, Debug)]
pub struct VMLayoutArea {
    pub m_start_addr: u64,
    pub m_size: u64,
}

impl VMLayoutArea {
    /// Constructs an area from its first address and its size
    pub fn new(start_addr: u64, size: u64) -> (r: Self)
        ensures
            r.m_start_addr == start_addr,
            r.m_size == size,
    {
        Self { m_start_addr: start_addr, m_size: size }
    }

    /// Constructs the empty area at address zero
    pub fn new_zero() -> (r: Self)
        ensures
            r.m_start_addr == 0,
            r.m_size == 0,
    {
        Self::new(0, 0)
    }
}

/// The virtual memory layout of the kernel core: the kernel text and the
/// randomized areas, in the order of the components' ordinal values
#[derive(Clone, Copy, PartialEq, Eq, Structural, Debug)]
pub struct VMLayout {
    pub m_kern_text_area: VMLayoutArea,
    pub m_kern_heap_area: VMLayoutArea,
    pub m_kern_stack_area: VMLayoutArea,
    pub m_phys_mem_bitmap_area: VMLayoutArea,
    pub m_phys_mem_mapping_area: VMLayoutArea,
    pub m_page_cache_area: VMLayoutArea,
    pub m_tmp_map_area: VMLayoutArea,
}

/// Where `vml_place_vm_component` puts a component: the address aligned up,
/// the alignment discarded so far and the size that the area receives
pub open spec fn spec_placement(
    vm_component: VMComponent,
    vm_area_address: u64,
    total_alignment_diff: u64,
) -> (int, int, int) {
    let align = vm_component.spec_alignment();
    let aligned = spec_align_up(vm_area_address, align);
    let total = total_alignment_diff + (aligned - vm_area_address);
    let size = if total > 0 && vm_component.spec_is_shrinkable() {
        spec_align_down((vm_component.spec_size() - total) as u64, align)
    } else {
        vm_component.spec_size() as int
    };
    (aligned, total, size)
}

/// The placement of the component fits the machine words, and a shrinkable
/// component is not smaller than the alignment it absorbs
pub open spec fn placement_fits(
    vm_component: VMComponent,
    vm_area_address: u64,
    total_alignment_diff: u64,
) -> bool {
    let (aligned, total, size) = spec_placement(vm_component, vm_area_address, total_alignment_diff);
    &&& !(vm_component is Empty)
    &&& vm_area_address + vm_component.spec_alignment() + vm_component.spec_size() <= u64::MAX
    &&& total <= u64::MAX
    &&& (total > 0 && vm_component.spec_is_shrinkable() ==> vm_component.spec_size() >= total)
}

/// Calculates the address and the size of the area of `vm_component`: the
/// address is `vm_area_address` aligned up to the component's alignment, the
/// discarded bytes are added to `total_alignment_diff`, and a shrinkable
/// component gives them back from its size. `vm_area_address` moves to the end
/// of the area, so that the areas placed one after the other never overlap
pub fn vml_place_vm_component(
    vm_component: VMComponent,
    vm_area_address: &mut u64,
    total_alignment_diff: &mut u64,
) -> (r: VMLayoutArea)
    requires
        placement_fits(vm_component, *old(vm_area_address), *old(total_alignment_diff)),
    ensures
        ({
            let (aligned, total, size) = spec_placement(
                vm_component,
                *old(vm_area_address),
                *old(total_alignment_diff),
            );
            &&& r.m_start_addr == aligned
            &&& r.m_size == size
            &&& *final(total_alignment_diff) == total
            &&& *final(vm_area_address) == aligned + size
        }),
        r.m_start_addr >= *old(vm_area_address),
        r.m_start_addr % vm_component.spec_alignment() == 0,
        r.m_size <= vm_component.spec_size(),
        *final(vm_area_address) == r.m_start_addr + r.m_size,
{
    proof {
        lemma_page_sizes_are_powers_of_two();
    }
    let current_vm_area_address = *vm_area_address;
    let alignment = vm_component.alignment();

    /* align up the current address with the alignment of the component and
     * keep the difference with the original address */
    let vma_aligned_addr = align_up(current_vm_area_address, alignment);
    let alignment_diff = vma_aligned_addr - current_vm_area_address;

    /* update the total alignment and keep a copy */
    *total_alignment_diff = *total_alignment_diff + alignment_diff;
    let total = *total_alignment_diff;

    /* shrink the area with the accumulated alignment when possible */
    let size = if total > 0 && vm_component.is_shrinkable() {
        align_down(vm_component.size() - total, alignment)
    } else {
        vm_component.size()
    };

    /* move the address for the next component */
    *vm_area_address = current_vm_area_address + size + alignment_diff;
    VMLayoutArea::new(vma_aligned_addr, size)
}

/// The end of an area, its first address after it
pub open spec fn area_end(area: VMLayoutArea) -> int {
    area.m_start_addr + area.m_size
}

/// The randomizer of the kernel core layout: it extracts the components in a
/// random order and places their areas one after the other from
/// `KERN_SPACE_BEGIN`
pub struct VMLayoutRandomizer {
    pub m_components: VMComponents,
    pub m_vm_area_address: u64,
    pub m_total_alignment_diff: u64,
    pub m_vm_areas: Vec<(VMComponent, VMLayoutArea)>,
}

impl VMLayoutRandomizer {
    /// The areas placed so far follow the extraction order, each aligned to its
    /// component and each after the previous ones, and the next address is the
    /// end of the last one
    pub open spec fn wf(&self) -> bool {
        let areas = self.m_vm_areas@;
        let order = self.m_components.m_order@;
        &&& self.m_components.wf()
        &&& areas.len() == self.m_components.m_extracted_count
        &&& forall|j: int|
            0 <= j < areas.len() ==> (#[trigger] areas[j]).0
                == self.m_components.m_precalculated_components@[order[j]]
        &&& forall|j: int|
            0 <= j < areas.len() ==> (#[trigger] areas[j]).1.m_start_addr % areas[j].0.spec_alignment()
                == 0
        &&& forall|j: int|
            0 <= j < areas.len() ==> KERN_SPACE_BEGIN <= (#[trigger] areas[j]).1.m_start_addr
                && area_end(areas[j].1) <= self.m_vm_area_address
        &&& forall|j: int, k: int|
            0 <= j < k < areas.len() ==> area_end((#[trigger] areas[j]).1) <= (
            #[trigger] areas[k]).1.m_start_addr
        &&& KERN_SPACE_BEGIN <= self.m_vm_area_address
    }

    /// The index of the component that `step` extracts with `random_value`
    pub open spec fn next_index(&self, random_value: u64) -> int {
        if self.m_components.m_extracted_count == 5 {
            self.m_components.m_last_shrinkable_component.spec_value()
        } else {
            (random_value % 6) as int
        }
    }

    /// `step` with `random_value` extracts a component
    pub open spec fn extracts(&self, random_value: u64) -> bool {
        let index = self.next_index(random_value);
        &&& self.m_components.m_extracted_count < 6
        &&& (self.m_components.m_extracted_count == 5 || !self.m_components.m_extracted@[index])
    }

    /// The component that `step` extracts with `random_value` fits its place
    pub open spec fn step_fits(&self, random_value: u64) -> bool {
        self.extracts(random_value) ==> placement_fits(
            self.m_components.m_precalculated_components@[self.next_index(random_value)],
            self.m_vm_area_address,
            self.m_total_alignment_diff,
        )
    }

    /// Constructs the randomizer for a kernel text that begins at
    /// `kern_text_start`: the kernel space between `KERN_SPACE_BEGIN` and the
    /// text is shared among the components
    pub fn new(
        necessary_bitmap_pages: u64,
        kern_text_start: u64,
        total_memory: u64,
        random_value: u64,
    ) -> (r: Self)
        requires
            kern_text_start >= KERN_SPACE_BEGIN,
            necessary_bitmap_pages * 4096 <= u64::MAX,
            total_memory + 0x20_0000 - 1 <= u64::MAX,
            kern_text_start - KERN_SPACE_BEGIN >= necessary_bitmap_pages * 4096 + spec_align_up(
                total_memory,
                0x20_0000,
            ) + 64 * 1024 + 0x20_0000,
        ensures
            r.wf(),
            r.m_vm_areas@.len() == 0,
            r.m_vm_area_address == KERN_SPACE_BEGIN,
            r.m_total_alignment_diff == 0,
            r.m_components.m_last_shrinkable_component.spec_value() == if random_value % 2 == 0 {
                4int
            } else {
                0int
            },
            forall|i: int|
                0 <= i < 6 ==> (#[trigger] r.m_components.m_precalculated_components@[i]).spec_size()
                    == components::spec_component_sizes(
                    necessary_bitmap_pages,
                    (kern_text_start - KERN_SPACE_BEGIN) as u64,
                    total_memory,
                )[i],
    {
        let kern_space_size = kern_text_start - KERN_SPACE_BEGIN;
        let components = VMComponents::new(
            necessary_bitmap_pages,
            kern_space_size,
            total_memory,
            random_value,
        );
        Self {
            m_components: components,
            m_vm_area_address: KERN_SPACE_BEGIN,
            m_total_alignment_diff: 0,
            m_vm_areas: Vec::new(),
        }
    }

    /// Tells whether `step` with `random_value` can place its component
    pub fn can_step(&self, random_value: u64) -> (r: bool)
        requires
            self.wf(),
        ensures
            r == self.step_fits(random_value),
    {
        proof {
            lemma_page_sizes_are_powers_of_two();
        }
        let count = self.m_components.m_extracted_count;
        let index: usize = if count == 5 {
            self.m_components.m_last_shrinkable_component.as_value()
        } else {
            (random_value % 6) as usize
        };
        if count >= 6 || (count < 5 && self.m_components.m_extracted[index]) {
            return true;
        }
        let c = self.m_components.m_precalculated_components[index];
        let address = self.m_vm_area_address;
        let align = c.alignment();
        let size = c.size();
        if address > u64::MAX - align || address + align > u64::MAX - size {
            return false;
        }
        let aligned = align_up(address, align);
        let diff = aligned - address;
        if self.m_total_alignment_diff > u64::MAX - diff {
            return false;
        }
        let total = self.m_total_alignment_diff + diff;
        !(total > 0 && c.is_shrinkable() && size < total)
    }

    /// Extracts the component that `random_value` chooses and places its area
    /// after the previous ones; a `Retry` or a `Done` changes nothing
    pub fn step(&mut self, random_value: u64) -> (r: VMComponentsStep)
        requires
            old(self).wf(),
            old(self).step_fits(random_value),
        ensures
            final(self).wf(),
            final(self).m_components.m_precalculated_components
                == old(self).m_components.m_precalculated_components,
            final(self).m_components.m_last_shrinkable_component
                == old(self).m_components.m_last_shrinkable_component,
            r is Extracted <==> old(self).extracts(random_value),
            r is Done <==> old(self).m_components.m_extracted_count == 6,
            match r {
                VMComponentsStep::Extracted(c) => {
                    let (aligned, total, size) = spec_placement(
                        c,
                        old(self).m_vm_area_address,
                        old(self).m_total_alignment_diff,
                    );
                    &&& c == old(self).m_components.m_precalculated_components@[old(
                        self,
                    ).next_index(random_value)]
                    &&& final(self).m_vm_areas@ == old(self).m_vm_areas@.push(
                        (c, VMLayoutArea { m_start_addr: aligned as u64, m_size: size as u64 }),
                    )
                    &&& final(self).m_total_alignment_diff == total
                    &&& final(self).m_vm_area_address == aligned + size
                },
                _ => {
                    &&& final(self).m_vm_areas@ == old(self).m_vm_areas@
                    &&& final(self).m_vm_area_address == old(self).m_vm_area_address
                    &&& final(self).m_total_alignment_diff == old(self).m_total_alignment_diff
                    &&& final(self).m_components.m_order@ == old(self).m_components.m_order@
                },
            },
    {
        let step = self.m_components.try_next(random_value);
        match step {
            VMComponentsStep::Extracted(c) => {
                let area = vml_place_vm_component(
                    c,
                    &mut self.m_vm_area_address,
                    &mut self.m_total_alignment_diff,
                );
                self.m_vm_areas.push((c, area));
                proof {
                    let areas = self.m_vm_areas@;
                    let n = areas.len() - 1;
                    assert(areas[n] == (c, area));
                    assert forall|j: int| 0 <= j < n implies area_end((#[trigger] areas[j]).1)
                        <= area.m_start_addr by {
                        assert(areas[j] == old(self).m_vm_areas@[j]);
                    }
                }
            },
            _ => {},
        }
        step
    }
}

/// The area of `layout` for the component of ordinal value `value`
pub open spec fn layout_area(layout: VMLayout, value: int) -> VMLayoutArea {
    if value == 0 {
        layout.m_kern_heap_area
    } else if value == 1 {
        layout.m_kern_stack_area
    } else if value == 2 {
        layout.m_phys_mem_bitmap_area
    } else if value == 3 {
        layout.m_phys_mem_mapping_area
    } else if value == 4 {
        layout.m_page_cache_area
    } else {
        layout.m_tmp_map_area
    }
}

/// Two areas do not overlap
pub open spec fn areas_disjoint(a: VMLayoutArea, b: VMLayoutArea) -> bool {
    area_end(a) <= b.m_start_addr || area_end(b) <= a.m_start_addr
}

impl VMLayoutRandomizer {
    /// Constructs the `VMLayout` once every component is placed: each area
    /// goes to the slot of its component's ordinal value, so that no two
    /// randomized areas overlap
    pub fn layout(&self, kern_text_area: VMLayoutArea) -> (r: VMLayout)
        requires
            self.wf(),
            self.m_components.m_extracted_count == 6,
        ensures
            r.m_kern_text_area == kern_text_area,
            forall|j: int|
                0 <= j < 6 ==> layout_area(r, #[trigger] self.m_components.m_order@[j])
                    == self.m_vm_areas@[j].1,
            forall|k: int|
                0 <= k < 6 ==> layout_area(r, k).m_start_addr
                    % self.m_components.m_precalculated_components@[k].spec_alignment() == 0,
            forall|k: int|
                0 <= k < 6 ==> KERN_SPACE_BEGIN <= #[trigger] layout_area(r, k).m_start_addr
                    && area_end(layout_area(r, k)) <= self.m_vm_area_address,
            forall|k1: int, k2: int|
                0 <= k1 < 6 && 0 <= k2 < 6 && k1 != k2 ==> areas_disjoint(
                    #[trigger] layout_area(r, k1),
                    #[trigger] layout_area(r, k2),
                ),
    {
        let ghost order = self.m_components.m_order@;
        let ghost areas = self.m_vm_areas@;
        proof {
            components::lemma_extraction_is_permutation(self.m_components);
        }
        let mut slots = [VMLayoutArea::new_zero(); 6];
        let mut j: usize = 0;
        while j < 6
            invariant
                self.wf(),
                self.m_components.m_extracted_count == 6,
                order == self.m_components.m_order@,
                areas == self.m_vm_areas@,
                j <= 6,
                forall|i: int| 0 <= i < j ==> slots@[#[trigger] order[i]] == areas[i].1,
            decreases 6 - j,
        {
            let (c, a) = self.m_vm_areas[j];
            let value = c.as_value();
            assert(value == order[j as int]);
            slots[value] = a;
            assert forall|i: int| 0 <= i < j + 1 implies slots@[#[trigger] order[i]] == areas[i].1 by {
                if i < j {
                    assert(order[i] != order[j as int]);
                }
            }
            j = j + 1;
        }
        let r = VMLayout {
            m_kern_text_area: kern_text_area,
            m_kern_heap_area: slots[0],
            m_kern_stack_area: slots[1],
            m_phys_mem_bitmap_area: slots[2],
            m_phys_mem_mapping_area: slots[3],
            m_page_cache_area: slots[4],
            m_tmp_map_area: slots[5],
        };
        proof {
            assert forall|k: int| 0 <= k < 6 implies layout_area(r, k) == slots@[k] by {}
            assert forall|k: int| 0 <= k < 6 implies layout_area(r, k).m_start_addr
                % self.m_components.m_precalculated_components@[k].spec_alignment() == 0 by {
                assert(order.contains(k));
                let i = choose|i: int| 0 <= i < 6 && order[i] == k;
                assert(slots@[order[i]] == areas[i].1);
            }
            assert forall|k: int| 0 <= k < 6 implies KERN_SPACE_BEGIN <= #[trigger] layout_area(
                r,
                k,
            ).m_start_addr && area_end(layout_area(r, k)) <= self.m_vm_area_address by {
                assert(order.contains(k));
                let i = choose|i: int| 0 <= i < 6 && order[i] == k;
                assert(slots@[order[i]] == areas[i].1);
            }
            assert forall|k1: int, k2: int|
                0 <= k1 < 6 && 0 <= k2 < 6 && k1 != k2 implies areas_disjoint(
                #[trigger] layout_area(r, k1),
                #[trigger] layout_area(r, k2),
            ) by {
                assert(order.contains(k1));
                assert(order.contains(k2));
                let i1 = choose|i: int| 0 <= i < 6 && order[i] == k1;
                let i2 = choose|i: int| 0 <= i < 6 && order[i] == k2;
                assert(slots@[order[i1]] == areas[i1].1);
                assert(slots@[order[i2]] == areas[i2].1);
                if i1 < i2 {
                    assert(area_end(areas[i1].1) <= areas[i2].1.m_start_addr);
                } else {
                    assert(area_end(areas[i2].1) <= areas[i1].1.m_start_addr);
                }
            }
        }
        r
    }
}

} // verus!
