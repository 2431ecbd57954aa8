use snmalloc_rs::backend::SENTINEL_ADDR;
use snmalloc_rs::model::ModelBackend;
use snmalloc_rs::{Layout, SnMalloc};

#[test]
fn zero_size_allocs_share_fixed_address() {
    let alloc = SnMalloc::new();
    let mut heap = ModelBackend::new();

    let l1 = Layout::from_size_align(0, 1).unwrap();
    let l2 = Layout::from_size_align(0, 16).unwrap();
    let p1 = alloc.safe_alloc(&mut heap, l1).unwrap();
    let p2 = alloc.safe_alloc(&mut heap, l2).unwrap();
    let p3 = alloc.safe_alloc_zeroed(&mut heap, l1).unwrap();
    assert_eq!(p1, SENTINEL_ADDR);
    assert_eq!(p1, p2);
    assert_eq!(p1, p3);

    // None of the zero-size traffic, frees included, reaches the backend.
    alloc.safe_dealloc(&mut heap, p1, l1);
    alloc.safe_dealloc(&mut heap, p2, l2);
    assert_eq!(heap.block_count(), 0);
}

#[test]
fn dealloc_leaves_other_blocks_intact() {
    let alloc = SnMalloc::new();
    let mut heap = ModelBackend::new();
    let layout = Layout::from_size_align(16, 8).unwrap();

    let kept = alloc.safe_alloc_zeroed(&mut heap, layout).unwrap();
    let freed = alloc.safe_alloc(&mut heap, layout).unwrap();
    assert_eq!(heap.block_count(), 2);

    alloc.safe_dealloc(&mut heap, freed, layout);
    assert_eq!(heap.block_count(), 1);
    for i in 0..16 {
        assert_eq!(heap.read_byte(kept, i), 0);
    }
    alloc.safe_dealloc(&mut heap, kept, layout);
    assert_eq!(heap.block_count(), 0);
}

#[test]
fn alloc_zeroed_bytes_read_as_zero() {
    let alloc = SnMalloc::new();
    let mut heap = ModelBackend::new();
    let layout = Layout::from_size_align(32, 8).unwrap();

    let ptr = alloc.safe_alloc_zeroed(&mut heap, layout).unwrap();
    for i in 0..32 {
        assert_eq!(heap.read_byte(ptr, i), 0);
    }
}

#[test]
fn realloc_from_zero_acts_like_alloc() {
    let alloc = SnMalloc::new();
    let zero_layout = Layout::from_size_align(0, 8).unwrap();

    let mut grown_heap = ModelBackend::new();
    let sentinel = alloc.safe_alloc(&mut grown_heap, zero_layout).unwrap();
    let grown = alloc
        .safe_realloc(&mut grown_heap, sentinel, zero_layout, 16)
        .unwrap();

    let mut fresh_heap = ModelBackend::new();
    let fresh_layout = Layout::from_size_align(16, 8).unwrap();
    let fresh = alloc.safe_alloc(&mut fresh_heap, fresh_layout).unwrap();

    // Growing the sentinel behaves exactly like a fresh 16-byte allocation.
    assert_eq!(grown, fresh);
    assert_ne!(grown, SENTINEL_ADDR);
    assert_eq!(grown % 8, 0);
    assert_eq!(grown_heap.block_count(), 1);
    assert!(alloc.usable_size(&grown_heap, grown).unwrap() >= 16);
}

#[test]
fn realloc_from_zero_rejects_invalid_growth() {
    let alloc = SnMalloc::new();
    let mut heap = ModelBackend::new();
    let zero_layout = Layout::from_size_align(0, 8).unwrap();

    let sentinel = alloc.safe_alloc(&mut heap, zero_layout).unwrap();
    // usize::MAX bytes cannot form a valid layout: "no memory".
    let grown = alloc.safe_realloc(&mut heap, sentinel, zero_layout, usize::MAX);
    assert!(grown.is_none());
    assert_eq!(heap.block_count(), 0);
}

#[test]
fn realloc_to_zero_frees_and_reports_no_memory() {
    let alloc = SnMalloc::new();
    let mut heap = ModelBackend::new();
    let layout = Layout::from_size_align(16, 8).unwrap();

    let ptr = alloc.safe_alloc(&mut heap, layout).unwrap();
    assert_eq!(heap.block_count(), 1);
    let shrunk = alloc.safe_realloc(&mut heap, ptr, layout, 0);
    // The block is gone and there is no new address.
    assert!(shrunk.is_none());
    assert_eq!(heap.block_count(), 0);
}

#[test]
fn realloc_both_sizes_zero_yields_sentinel() {
    let alloc = SnMalloc::new();
    let mut heap = ModelBackend::new();
    let zero_layout = Layout::from_size_align(0, 1).unwrap();

    let sentinel = alloc.safe_alloc(&mut heap, zero_layout).unwrap();
    let again = alloc
        .safe_realloc(&mut heap, sentinel, zero_layout, 0)
        .unwrap();
    assert_eq!(again, SENTINEL_ADDR);
    assert_eq!(heap.block_count(), 0);
}

#[test]
fn realloc_preserves_leading_bytes() {
    let alloc = SnMalloc::new();
    let mut heap = ModelBackend::new();
    let layout = Layout::from_size_align(8, 8).unwrap();

    let ptr = alloc.safe_alloc_zeroed(&mut heap, layout).unwrap();
    let grown = alloc.safe_realloc(&mut heap, ptr, layout, 16).unwrap();
    for i in 0..8 {
        assert_eq!(heap.read_byte(grown, i), 0);
    }
}

#[test]
fn usable_size_of_null_is_unknown() {
    let alloc = SnMalloc::new();
    let heap = ModelBackend::new();
    assert!(alloc.usable_size(&heap, 0).is_none());
}

#[test]
fn alloc_aligned_matches_safe_alloc() {
    let alloc = SnMalloc::new();
    let mut heap = ModelBackend::new();

    let zero_layout = Layout::from_size_align(0, 1).unwrap();
    assert_eq!(
        alloc.alloc_aligned(&mut heap, zero_layout).unwrap(),
        SENTINEL_ADDR
    );

    let layout = Layout::from_size_align(24, 8).unwrap();
    let ptr = alloc.alloc_aligned(&mut heap, layout).unwrap();
    assert_ne!(ptr, 0);
    assert_eq!(ptr % 8, 0);
    alloc.safe_dealloc(&mut heap, ptr, layout);
}

#[test]
fn alignment_is_respected() {
    let alloc = SnMalloc::new();
    let mut heap = ModelBackend::new();

    for &align in &[1usize, 8, 32] {
        for &size in &[8usize, 1 << 20] {
            let layout = Layout::from_size_align(size, align).unwrap();
            let ptr = alloc.safe_alloc(&mut heap, layout).unwrap();
            assert_eq!(ptr % align, 0);
            alloc.safe_dealloc(&mut heap, ptr, layout);
        }
    }
    assert_eq!(heap.block_count(), 0);
}

#[test]
fn layout_validation() {
    // Alignment must be a power of two.
    assert!(Layout::from_size_align(8, 3).is_none());
    assert!(Layout::from_size_align(8, 0).is_none());
    // The size, rounded up to the alignment, must stay within isize::MAX.
    assert!(Layout::from_size_align(usize::MAX, 8).is_none());
    assert!(Layout::from_size_align(usize::MAX / 2, 1).is_some());
    assert!(Layout::from_size_align(usize::MAX / 2, 2).is_none());
    // Zero sizes and ordinary requests are fine.
    assert!(Layout::from_size_align(0, 1).is_some());
    let layout = Layout::from_size_align(8, 8).unwrap();
    assert_eq!(layout.size(), 8);
    assert_eq!(layout.align(), 8);
}
