use simple_hv::error::AllocError;
use simple_hv::lab::LabByteAllocator;

#[test]
fn new_lab_allocator_has_no_heap() {
    let a = LabByteAllocator::<Vec<u8>>::new();
    assert!(!a.is_initialized());
}

#[test]
fn init_gives_the_heap() {
    let mut a = LabByteAllocator::<Vec<u8>>::new();
    a.init(vec![1, 2, 3]);
    assert!(a.is_initialized());
    assert_eq!(a.inner(), &vec![1, 2, 3]);
}

#[test]
fn inner_mut_changes_the_heap_in_place() {
    let mut a = LabByteAllocator::<Vec<u8>>::new();
    a.init(vec![1]);
    a.inner_mut().push(2);
    assert_eq!(a.inner(), &vec![1, 2]);
    a.init(vec![9]);
    assert_eq!(a.inner(), &vec![9]);
}

#[test]
fn heap_failure_is_no_memory() {
    assert_eq!(LabByteAllocator::<Vec<u8>>::alloc_result::<()>(Ok(0x8000)), Ok(0x8000));
    assert_eq!(
        LabByteAllocator::<Vec<u8>>::alloc_result::<()>(Err(())),
        Err(AllocError::NoMemory)
    );
    assert_eq!(
        LabByteAllocator::<Vec<u8>>::alloc_result::<&str>(Err("out of slabs")),
        Err(AllocError::NoMemory)
    );
}
