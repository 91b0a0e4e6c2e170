use nuefi::mem::{UefiAlloc, POOL_ALIGN};

#[test]
fn extra_for_small_alignments_is_zero() {
    assert_eq!(POOL_ALIGN, 8);
    assert_eq!(UefiAlloc::extra(1), 0);
    assert_eq!(UefiAlloc::extra(8), 0);
}

#[test]
fn extra_for_large_alignment() {
    assert_eq!(UefiAlloc::extra(16), 16);
    assert_eq!(UefiAlloc::extra(4096), 4096);
}

#[test]
fn pool_size_adds_extra() {
    assert_eq!(UefiAlloc::pool_size(100, 4), 100);
    assert_eq!(UefiAlloc::pool_size(100, 64), 164);
}

#[test]
fn small_alignment_hands_out_the_pool_block() {
    assert_eq!(UefiAlloc::alloc_address(None, 8), 0);
    let p = UefiAlloc::alloc_address(Some(0x2000), 8);
    assert_eq!(p, 0x2000);
    assert_eq!(UefiAlloc::header_slot(p, 8), None);
    assert_eq!(UefiAlloc::dealloc_address(p, 8, None), Some(0x2000));
    assert_eq!(UefiAlloc::dealloc_address(0, 8, None), None);
}

#[test]
fn large_alignment_is_aligned_and_freed_through_header() {
    // 0x1000 is 16-aligned, but the header needs the 8 bytes before
    let p = UefiAlloc::alloc_address(Some(0x1000), 16);
    assert_eq!(p, 0x1010);
    assert_eq!(p % 16, 0);
    assert_eq!(UefiAlloc::header_slot(p, 16), Some(0x1008));
    assert_eq!(UefiAlloc::dealloc_address(p, 16, Some(0x1000)), Some(0x1000));
    // 0x1008 is not 16-aligned
    let q = UefiAlloc::alloc_address(Some(0x1008), 16);
    assert_eq!(q, 0x1010);
    assert!(q + 100 <= 0x1008 + UefiAlloc::pool_size(100, 16));
    let r = UefiAlloc::alloc_address(Some(0x1000), 64);
    assert_eq!(r, 0x1040);
    assert!(r + 10 <= 0x1000 + UefiAlloc::pool_size(10, 64));
    assert_eq!(UefiAlloc::alloc_address(Some(0x1038), 64), 0x1040);
    assert_eq!(UefiAlloc::dealloc_address(0, 64, None), None);
}
