use snmalloc_rs::model::ModelBackend;
use snmalloc_rs::{Layout, SnMalloc};

#[test]
fn allocation_lifecycle() {
    let alloc = SnMalloc::new();
    let mut heap = ModelBackend::new();
    let layout = Layout::from_size_align(8, 8).unwrap();

    // Regular allocation
    let ptr = alloc.safe_alloc(&mut heap, layout).unwrap();
    alloc.safe_dealloc(&mut heap, ptr, layout);

    // Zeroed allocation
    let ptr = alloc.safe_alloc_zeroed(&mut heap, layout).unwrap();
    alloc.safe_dealloc(&mut heap, ptr, layout);

    // Reallocation
    let ptr = alloc.safe_alloc(&mut heap, layout).unwrap();
    let ptr = alloc.safe_realloc(&mut heap, ptr, layout, 16).unwrap();
    alloc.safe_dealloc(&mut heap, ptr, Layout::from_size_align(16, 8).unwrap());

    // Large allocation
    let large_layout = Layout::from_size_align(1 << 20, 32).unwrap();
    let ptr = alloc.safe_alloc(&mut heap, large_layout).unwrap();
    alloc.safe_dealloc(&mut heap, ptr, large_layout);
}

#[test]
fn it_frees_allocated_memory() {
    let alloc = SnMalloc::new();
    let mut heap = ModelBackend::new();
    let layout = Layout::from_size_align(8, 8).unwrap();

    let ptr = alloc.safe_alloc(&mut heap, layout).unwrap();
    alloc.safe_dealloc(&mut heap, ptr, layout);
    assert_eq!(heap.block_count(), 0);
}

#[test]
fn it_frees_zero_allocated_memory() {
    let alloc = SnMalloc::new();
    let mut heap = ModelBackend::new();
    let layout = Layout::from_size_align(8, 8).unwrap();

    let ptr = alloc.safe_alloc_zeroed(&mut heap, layout).unwrap();
    alloc.safe_dealloc(&mut heap, ptr, layout);
    assert_eq!(heap.block_count(), 0);
}

#[test]
fn it_frees_reallocated_memory() {
    let alloc = SnMalloc::new();
    let mut heap = ModelBackend::new();
    let layout = Layout::from_size_align(8, 8).unwrap();

    let ptr = alloc.safe_alloc(&mut heap, layout).unwrap();
    let ptr = alloc.safe_realloc(&mut heap, ptr, layout, 16).unwrap();
    alloc.safe_dealloc(&mut heap, ptr, Layout::from_size_align(16, 8).unwrap());
    assert_eq!(heap.block_count(), 0);
}

#[test]
fn it_frees_large_alloc() {
    let alloc = SnMalloc::new();
    let mut heap = ModelBackend::new();
    let layout = Layout::from_size_align(1 << 20, 32).unwrap();

    let ptr = alloc.safe_alloc(&mut heap, layout).unwrap();
    alloc.safe_dealloc(&mut heap, ptr, layout);
    assert_eq!(heap.block_count(), 0);
}

#[test]
fn test_usable_size() {
    let alloc = SnMalloc::new();
    let mut heap = ModelBackend::new();
    let layout = Layout::from_size_align(8, 8).unwrap();

    let ptr = alloc.safe_alloc(&mut heap, layout).unwrap();
    let usz = alloc
        .usable_size(&heap, ptr)
        .expect("usable_size returned None");
    alloc.safe_dealloc(&mut heap, ptr, layout);
    assert!(usz >= 8);
}

#[test]
fn test_zero_sized_allocation() {
    let alloc = SnMalloc::new();
    let mut heap = ModelBackend::new();
    let zst_layout = Layout::from_size_align(0, 1).unwrap();

    let ptr = alloc.safe_alloc(&mut heap, zst_layout).unwrap();
    assert!(ptr != 0);
    alloc.safe_dealloc(&mut heap, ptr, zst_layout);
}
