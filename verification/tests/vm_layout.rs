use kernel::hhloader::mem::phys::init_allocator::{BootMemArea, HHLPreInitAllocator};
use kernel::hhloader::mem::vm_layout::components::{VMComponent, VMComponents, VMComponentsStep};
use kernel::hhloader::mem::vm_layout::{
    vml_place_vm_component, VMLayoutArea, VMLayoutRandomizer, KERN_SPACE_BEGIN,
};
use kernel::addr::phys::PhysAddr;

const MIB2: u64 = 0x20_0000;

#[test]
fn component_properties() {
    assert_eq!(VMComponent::KernHeap(7).size(), 7);
    assert_eq!(VMComponent::TmpMapping(9).size(), 9);
    assert_eq!(VMComponent::KernHeap(0).alignment(), 4096);
    assert_eq!(VMComponent::KernStack(0).alignment(), 4096);
    assert_eq!(VMComponent::PhysMemBitmap(0).alignment(), 4096);
    assert_eq!(VMComponent::PageCache(0).alignment(), 4096);
    assert_eq!(VMComponent::PhysMemMapping(0).alignment(), MIB2);
    assert_eq!(VMComponent::TmpMapping(0).alignment(), MIB2);
    assert!(VMComponent::KernHeap(0).is_shrinkable());
    assert!(VMComponent::PageCache(0).is_shrinkable());
    assert!(!VMComponent::KernStack(0).is_shrinkable());
    assert!(!VMComponent::PhysMemMapping(0).is_shrinkable());
    let values: Vec<usize> = [
        VMComponent::KernHeap(0),
        VMComponent::KernStack(0),
        VMComponent::PhysMemBitmap(0),
        VMComponent::PhysMemMapping(0),
        VMComponent::PageCache(0),
        VMComponent::TmpMapping(0),
    ]
    .iter()
    .map(|c| c.as_value())
    .collect();
    assert_eq!(values, vec![0, 1, 2, 3, 4, 5]);
}

#[test]
fn components_sizes() {
    let comps = VMComponents::new(2, 0x4000_0000, 0x300_0000, 0);
    let sizes: Vec<u64> = comps.m_precalculated_components.iter().map(|c| c.size()).collect();
    assert_eq!(sizes, vec![0x1e6f_7000, 0x10000, 8192, 0x300_0000, 0x1e6f_7000, MIB2]);
    /* an even random value puts the page cache last */
    assert_eq!(comps.m_last_shrinkable_component, VMComponent::PageCache(0x1e6f_7000));
    assert_eq!(comps.m_extracted_count, 0);
    let odd = VMComponents::new(2, 0x4000_0000, 0x300_0001, 3);
    assert_eq!(odd.m_precalculated_components[3], VMComponent::PhysMemMapping(0x320_0000));
    assert_eq!(odd.m_last_shrinkable_component, VMComponent::KernHeap(0x1e5f_7000));
}

#[test]
fn components_extraction_order() {
    let mut comps = VMComponents::new(2, 0x4000_0000, 0x300_0000, 0);
    /* the page cache goes last: asking for it before gives a retry */
    assert_eq!(comps.try_next(10), VMComponentsStep::Retry);
    assert_eq!(comps.try_next(3), VMComponentsStep::Extracted(VMComponent::PhysMemMapping(0x300_0000)));
    assert_eq!(comps.try_next(1), VMComponentsStep::Extracted(VMComponent::KernStack(0x10000)));
    assert_eq!(comps.try_next(9), VMComponentsStep::Retry);
    assert_eq!(comps.try_next(2), VMComponentsStep::Extracted(VMComponent::PhysMemBitmap(8192)));
    assert_eq!(comps.try_next(6), VMComponentsStep::Extracted(VMComponent::KernHeap(0x1e6f_7000)));
    assert_eq!(comps.try_next(5), VMComponentsStep::Extracted(VMComponent::TmpMapping(MIB2)));
    /* the last one is the shrinkable one, whatever the random value */
    assert_eq!(comps.try_next(0), VMComponentsStep::Extracted(VMComponent::PageCache(0x1e6f_7000)));
    assert_eq!(comps.try_next(0), VMComponentsStep::Done);
    assert_eq!(comps.m_extracted_count, 6);
}

#[test]
fn place_component_aligns_and_shrinks() {
    let mut address = KERN_SPACE_BEGIN + 0x1000;
    let mut total = 0u64;
    let area = vml_place_vm_component(VMComponent::PhysMemMapping(0x40_0000), &mut address, &mut total);
    assert_eq!(area, VMLayoutArea::new(KERN_SPACE_BEGIN + MIB2, 0x40_0000));
    assert_eq!(total, 0x1F_F000);
    assert_eq!(address, KERN_SPACE_BEGIN + MIB2 + 0x40_0000);
    let heap = vml_place_vm_component(VMComponent::KernHeap(0x100_0000), &mut address, &mut total);
    assert_eq!(heap, VMLayoutArea::new(KERN_SPACE_BEGIN + MIB2 + 0x40_0000, 0xE0_1000));
    assert_eq!(total, 0x1F_F000);
    assert_eq!(address, KERN_SPACE_BEGIN + MIB2 + 0x40_0000 + 0xE0_1000);
    /* a component that does not shrink keeps its size */
    let stack = vml_place_vm_component(VMComponent::KernStack(0x1_0000), &mut address, &mut total);
    assert_eq!(stack.m_size, 0x1_0000);
    assert_eq!(VMLayoutArea::new_zero(), VMLayoutArea::new(0, 0));
}

fn disjoint(a: &VMLayoutArea, b: &VMLayoutArea) -> bool {
    a.m_start_addr + a.m_size <= b.m_start_addr || b.m_start_addr + b.m_size <= a.m_start_addr
}

#[test]
fn randomized_layout_areas_do_not_overlap() {
    let text_start = KERN_SPACE_BEGIN + 0x4000_0000;
    let mut randomizer = VMLayoutRandomizer::new(2, text_start, 0x300_0000, 1);
    assert_eq!(randomizer.m_vm_area_address, KERN_SPACE_BEGIN);
    let randoms = [5u64, 5, 0, 2, 7, 3, 1, 4, 4, 0, 9];
    let mut k = 0;
    loop {
        let value = randoms[k % randoms.len()];
        assert!(randomizer.can_step(value));
        match randomizer.step(value) {
            VMComponentsStep::Done => break,
            _ => {}
        }
        k += 1;
    }
    assert_eq!(randomizer.m_vm_areas.len(), 6);
    /* an odd random value puts the kernel heap last */
    assert_eq!(randomizer.m_vm_areas[5].0.as_value(), 0);
    let layout = randomizer.layout(VMLayoutArea::new(text_start, 0x10_0000));
    let areas = [
        layout.m_kern_heap_area,
        layout.m_kern_stack_area,
        layout.m_phys_mem_bitmap_area,
        layout.m_phys_mem_mapping_area,
        layout.m_page_cache_area,
        layout.m_tmp_map_area,
    ];
    for i in 0..6 {
        for j in 0..6 {
            if i != j {
                assert!(disjoint(&areas[i], &areas[j]));
            }
        }
    }
    assert_eq!(layout.m_phys_mem_mapping_area.m_start_addr % MIB2, 0);
    assert_eq!(layout.m_tmp_map_area.m_start_addr % MIB2, 0);
    assert_eq!(layout.m_kern_stack_area.m_size, 0x1_0000);
    assert_eq!(layout.m_kern_text_area, VMLayoutArea::new(text_start, 0x10_0000));
}

#[test]
fn pre_init_allocator_walks_the_areas() {
    let areas = [
        BootMemArea { start: 0x10_0000, size: 0x2000 },
        BootMemArea { start: 0x20_0800, size: 0x1801 },
    ];
    let mut allocator = HHLPreInitAllocator::new();
    assert_eq!(allocator.allocated_frames(), 0);
    let expected = [0x10_0000u64, 0x10_1000, 0x20_0000, 0x20_1000];
    for addr in expected.iter() {
        let frame = allocator.allocate(&areas).unwrap();
        assert_eq!(frame.start_addr().as_usize(), *addr);
    }
    assert_eq!(allocator.allocated_frames(), 4);
    assert!(allocator.allocate(&areas).is_none());
    assert_eq!(allocator.allocated_frames(), 4);
}

#[test]
fn pre_init_allocator_start_after() {
    let areas = [BootMemArea { start: 0, size: 0x10_000 }];
    let mut allocator = HHLPreInitAllocator::new();
    allocator.start_after(PhysAddr::new(0x3000).containing_frame());
    assert_eq!(allocator.allocated_frames(), 3);
    assert_eq!(allocator.allocate(&areas).unwrap().start_addr().as_usize(), 0x3000);
    assert_eq!(allocator.allocated_frames(), 4);
}
