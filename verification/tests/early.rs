use simple_hv::early::EarlyAllocator;
use simple_hv::error::AllocError;

#[test]
fn new_allocator_is_empty() {
    let a = EarlyAllocator::<4096>::new();
    assert_eq!(a.total_bytes(), 0);
    assert_eq!(a.used_bytes(), 0);
    assert_eq!(a.available_bytes(), 0);
    assert_eq!(a.total_pages(), 0);
    assert_eq!(a.used_pages(), 0);
    assert_eq!(a.available_pages(), 0);
}

#[test]
fn init_takes_the_region() {
    let mut a = EarlyAllocator::<4096>::new();
    a.init(0x1_0000, 0x8000);
    assert_eq!(a.total_bytes(), 0x8000);
    assert_eq!(a.used_bytes(), 0);
    assert_eq!(a.available_bytes(), 0x8000);
    assert_eq!(a.total_pages(), 8);
    assert_eq!(a.used_pages(), 0);
    assert_eq!(a.available_pages(), 8);
}

#[test]
fn bytes_are_handed_out_upwards() {
    let mut a = EarlyAllocator::<4096>::new();
    a.init(0x1_0000, 0x8000);
    assert_eq!(a.alloc_bytes(16, 8), Ok(0x1_0000));
    assert_eq!(a.alloc_bytes(3, 1), Ok(0x1_0010));
    assert_eq!(a.alloc_bytes(64, 64), Ok(0x1_0013));
    assert_eq!(a.used_bytes(), 16 + 3 + 64);
    assert_eq!(a.available_bytes(), 0x8000 - 83);
    assert_eq!(a.total_bytes(), 0x8000);
}

#[test]
fn byte_area_is_freed_with_its_last_allocation() {
    let mut a = EarlyAllocator::<4096>::new();
    a.init(0x1_0000, 0x8000);
    let first = a.alloc_bytes(100, 8).unwrap();
    let second = a.alloc_bytes(200, 8).unwrap();
    a.dealloc(first, 100, 8);
    assert_eq!(a.used_bytes(), 300);
    assert_eq!(a.alloc_bytes(8, 8), Ok(0x1_0000 + 300));
    a.dealloc(second, 200, 8);
    assert_eq!(a.used_bytes(), 308);
    a.dealloc(0x1_0000 + 300, 8, 8);
    assert_eq!(a.used_bytes(), 0);
    assert_eq!(a.alloc_bytes(8, 8), Ok(0x1_0000));
}

#[test]
fn pages_are_handed_out_downwards() {
    let mut a = EarlyAllocator::<4096>::new();
    a.init(0x1_0000, 0x8000);
    assert_eq!(a.alloc_pages(1, 12), Ok(0x1_7000));
    assert_eq!(a.alloc_pages(2, 12), Ok(0x1_5000));
    assert_eq!(a.used_pages(), 3);
    assert_eq!(a.available_pages(), 5);
    assert_eq!(a.available_bytes(), 0x5000);
    a.dealloc_pages(0x1_5000, 2);
    assert_eq!(a.used_pages(), 3);
    assert_eq!(a.total_pages(), 8);
}

#[test]
fn pages_are_aligned_down() {
    let mut a = EarlyAllocator::<4096>::new();
    a.init(0x1_0000, 0x8000);
    // 0x18000 - 0x1000 = 0x17000, aligned down to 0x4000: 0x14000.
    assert_eq!(a.alloc_pages(1, 14), Ok(0x1_4000));
    assert_eq!(a.used_pages(), 4);
    // Alignment 1 changes nothing.
    assert_eq!(a.alloc_pages(1, 0), Ok(0x1_3000));
    // No pages: only the alignment moves the position.
    assert_eq!(a.alloc_pages(0, 16), Ok(0x1_0000));
}

#[test]
fn bytes_and_pages_share_the_region() {
    let mut a = EarlyAllocator::<256>::new();
    a.init(0x4000, 0x1000);
    assert_eq!(a.total_pages(), 16);
    assert_eq!(a.alloc_bytes(0x100, 8), Ok(0x4000));
    assert_eq!(a.alloc_pages(4, 8), Ok(0x4c00));
    assert_eq!(a.available_bytes(), 0xc00 - 0x100);
    assert_eq!(a.available_pages(), 11);
    assert_eq!(a.used_pages(), 4);
    assert_eq!(a.used_bytes(), 0x100);
}

#[test]
fn alloc_error_variants_are_distinct() {
    let all = [
        AllocError::InvalidParam,
        AllocError::MemoryOverlap,
        AllocError::NoMemory,
        AllocError::NotAllocated,
    ];
    for (i, a) in all.iter().enumerate() {
        for (j, b) in all.iter().enumerate() {
            assert_eq!(a == b, i == j);
        }
    }
}
