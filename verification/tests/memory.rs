use kernel::addr::phys::PhysAddr as AddrPhysAddr;
use kernel::addr::phys_addr::PhysAddr;
use kernel::addr::virt_addr::VirtAddr;
use kernel::addr::AddressErr;
use kernel::arch::x86_64::addr::hw_virt_addr::HwVirtAddr;
use kernel::mem::bitmap::BitMapAllocator;
use kernel::mem::frame::PhysFrame;
use kernel::vm::page_table::{PageTableIndex, PageTableLevel};

fn frame(addr: u64) -> PhysFrame {
    AddrPhysAddr::new(addr).containing_frame()
}

#[test]
fn bitmap_init_zeroes_the_bitmap() {
    let mut allocator = BitMapAllocator::new_uninitialized();
    assert!(allocator.allocate_one().is_none());
    assert_eq!(allocator.allocated_mem(), 0);
    allocator.init(vec![0xFF, 0xFF], 5);
    assert_eq!(allocator.m_inner.as_ref().unwrap().m_bits, vec![0, 0]);
    assert!(allocator.allocate_one().is_none());
    assert_eq!(allocator.allocated_mem(), 5 * 4096);
}

#[test]
fn bitmap_allocates_the_first_available_frame() {
    let mut allocator = BitMapAllocator::new_uninitialized();
    allocator.init(vec![0xAA, 0xFF], 5);
    allocator.add_phys_frame(frame(0x8000));
    allocator.add_phys_frame(frame(0x2000));
    assert_eq!(allocator.allocate_one().unwrap().start_addr().as_usize(), 0x2000);
    assert_eq!(allocator.allocate_one().unwrap().start_addr().as_usize(), 0x8000);
    assert!(allocator.allocate_one().is_none());
    assert_eq!(allocator.allocated_mem(), 7 * 4096);
}

#[test]
fn bitmap_free_undoes_allocate() {
    let mut allocator = BitMapAllocator::new_uninitialized();
    allocator.init(vec![0x00], 0);
    allocator.add_phys_frame(frame(0x7000));
    allocator.add_phys_frame(frame(0));
    let first = allocator.allocate_one().unwrap();
    assert_eq!(first.start_addr().as_usize(), 0);
    let bits_after_alloc = allocator.m_inner.as_ref().unwrap().m_bits.clone();
    assert_eq!(bits_after_alloc, vec![0x80]);
    allocator.free_one(first);
    assert_eq!(allocator.m_inner.as_ref().unwrap().m_bits, vec![0x81]);
    assert_eq!(allocator.allocated_mem(), 0);
    assert_eq!(allocator.allocate_one().unwrap().start_addr().as_usize(), 0);
    assert_eq!(allocator.allocate_one().unwrap().start_addr().as_usize(), 0x7000);
    assert!(allocator.allocate_one().is_none());
    assert_eq!(allocator.allocated_mem(), 2 * 4096);
}

#[test]
fn bitmap_contiguous_blocks() {
    let mut allocator = BitMapAllocator::new_uninitialized();
    allocator.init(vec![0x00, 0x00, 0x00, 0x00], 0);
    for index in 8..24u64 {
        allocator.add_phys_frame(frame(index * 4096));
    }
    assert_eq!(allocator.m_inner.as_ref().unwrap().m_bits, vec![0x00, 0xFF, 0xFF, 0x00]);
    let range = allocator.allocate_contiguous(16, 4096).unwrap();
    assert_eq!(range.start.start_addr().as_usize(), 0x8000);
    assert_eq!(range.end.start_addr().as_usize(), 0x18000);
    assert_eq!(allocator.m_inner.as_ref().unwrap().m_bits, vec![0, 0, 0, 0]);
    assert_eq!(allocator.allocated_mem(), 16 * 4096);
    assert!(allocator.allocate_contiguous(8, 4096).is_none());
    allocator.free_contiguous(range);
    assert_eq!(allocator.m_inner.as_ref().unwrap().m_bits, vec![0x00, 0xFF, 0xFF, 0x00]);
    assert_eq!(allocator.allocated_mem(), 0);
    /* the last byte of the bitmap is a candidate too */
    let last = allocator.allocate_contiguous(8, 4096).unwrap();
    assert_eq!(last.start.start_addr().as_usize(), 0x8000);
    let second = allocator.allocate_contiguous(8, 4096).unwrap();
    assert_eq!(second.start.start_addr().as_usize(), 0x10000);
    assert_eq!(second.end.start_addr().as_usize(), 0x18000);
}

#[test]
fn bitmap_added_frames() {
    let mut allocator = BitMapAllocator::new_uninitialized();
    allocator.add_phys_frame(frame(0x1000));
    assert_eq!(allocator.added_frames(), 0);
    allocator.init(vec![0x00], 0);
    assert_eq!(allocator.added_frames(), 0);
    allocator.add_phys_frame(frame(0x3000));
    assert_eq!(allocator.added_frames(), 1);
    assert_eq!(allocator.allocated_mem(), 0);
    assert_eq!(allocator.allocate_one().unwrap().start_addr().as_usize(), 0x3000);
}

#[test]
fn shared_phys_addr_is_truncated_to_52_bits() {
    assert_eq!(AddrPhysAddr::new(0xfff0_0000_0000_1234).as_usize(), 0x1234);
    assert_eq!(AddrPhysAddr::try_from(0x10_0000_0000_0000).unwrap_err().raw_value(), 0x10_0000_0000_0000);
    assert_eq!(AddrPhysAddr::try_from(0x1234).unwrap().as_usize(), 0x1234);
    assert_eq!(AddrPhysAddr::new(0x1001).align_up(0x1000).as_usize(), 0x2000);
    assert_eq!(AddrPhysAddr::new(0x1fff).align_down(0x1000).as_usize(), 0x1000);
    assert!(AddrPhysAddr::new(0x3000).is_aligned(0x1000));
    assert!(!AddrPhysAddr::new(0x3001).is_aligned(0x1000));
    assert!(AddrPhysAddr::new_zero().is_null());
    assert_eq!(AddrPhysAddr::new(0x10).add(0x20).as_usize(), 0x30);
    assert_eq!(AddrPhysAddr::new(0x30).sub(0x20).as_usize(), 0x10);
    let err: AddressErr = AddressErr(7);
    assert_eq!(err.raw_value(), 7);
}

#[test]
fn kernel_phys_addr() {
    assert_eq!(PhysAddr::from(0xffff_ffff_ffff_ffff).deref(), 0x000f_ffff_ffff_ffff);
    assert_eq!(PhysAddr::max().deref(), 0x000f_ffff_ffff_ffff);
    assert!(PhysAddr::null().is_null());
    let range = PhysAddr::from(0x1000).to_range(0x2000);
    assert_eq!((range.start.deref(), range.end.deref()), (0x1000, 0x3000));
    assert_eq!(PhysAddr::from(0x5000).as_page_index(0x1000), 5);
    assert_eq!(PhysAddr::steps_between(&PhysAddr::from(0x10), &PhysAddr::from(0x30)), Some(0x20));
    assert_eq!(PhysAddr::steps_between(&PhysAddr::from(0x30), &PhysAddr::from(0x10)), None);
    assert_eq!(PhysAddr::backward_checked(PhysAddr::from(0x10), 0x20), None);
}

#[test]
fn virt_addr_is_canonical() {
    assert_eq!(VirtAddr::from(0x0000_8000_0000_0000).deref(), 0xffff_8000_0000_0000);
    assert_eq!(VirtAddr::from(0x1234_0000_1000_0000).deref(), 0x0000_0000_1000_0000);
    assert_eq!(VirtAddr::max().deref(), 0x0000_ffff_ffff_ffff);
    let addr = VirtAddr::from(0xffff_8000_4020_3000);
    assert_eq!(addr.page_table_index(PageTableLevel::Root).as_u16(), 256);
    assert_eq!(addr.page_table_index(PageTableLevel::OneGiB).as_u16(), 1);
    assert_eq!(addr.page_table_index(PageTableLevel::TwoMiB).as_u16(), 1);
    assert_eq!(addr.page_table_index(PageTableLevel::FourKiB).as_u16(), 3);
    assert_eq!(VirtAddr::forward_checked(VirtAddr::from(0x10), 0x10).unwrap().deref(), 0x20);
    assert!(VirtAddr::forward_checked(VirtAddr::from(0xffff_ffff_ffff_fff0), 0x20).is_none());
}

#[test]
fn table_indexes_round_trip() {
    let back = HwVirtAddr::from_4kib_indexes(
        PageTableIndex::new(256),
        PageTableIndex::new(1),
        PageTableIndex::new(1),
        PageTableIndex::new(3),
    );
    assert_eq!(back.deref(), 0xffff_8000_4020_3000);
    let huge = HwVirtAddr::from_2mib_indexes(
        PageTableIndex::new(1),
        PageTableIndex::new(2),
        PageTableIndex::new(3),
    );
    assert_eq!(huge.deref(), (1u64 << 39) | (2 << 30) | (3 << 21));
}
