use std::mem::{align_of, size_of};

use veecle_freertos_integration::allocator::{
    align_offset, alloc_information_size, fits_kernel_alignment, memory_region,
    original_pointer_location, required_size, BYTE_ALIGNMENT,
};

#[test]
fn small_alignments_are_left_to_the_kernel() {
    assert_eq!(BYTE_ALIGNMENT, 8);
    for align in [1usize, 2, 4, 8] {
        assert!(fits_kernel_alignment(align));
    }
    for align in [16usize, 32, 128, 4096] {
        assert!(!fits_kernel_alignment(align));
    }
}

#[test]
fn the_room_in_front_of_a_block_holds_an_aligned_address() {
    assert_eq!(alloc_information_size(), size_of::<usize>() + align_of::<usize>());
}

#[test]
fn the_request_covers_block_alignment_and_address() {
    let information = alloc_information_size();
    assert_eq!(required_size(100, 128), Some(128 + 100 + information));
    assert_eq!(required_size(0, 16), Some(16 + information));
    assert_eq!(required_size(usize::MAX, 16), None);
    assert_eq!(required_size(usize::MAX - 16 - information, 16), Some(usize::MAX));
    assert_eq!(required_size(usize::MAX - 15 - information, 16), None);
}

#[test]
fn align_offset_leads_to_the_next_multiple() {
    assert_eq!(align_offset(0, 16), 0);
    assert_eq!(align_offset(1, 16), 15);
    assert_eq!(align_offset(15, 16), 1);
    assert_eq!(align_offset(16, 16), 0);
    assert_eq!(align_offset(1016, 128), 8);
    assert_eq!(align_offset(7, 1), 0);
    assert_eq!(align_offset(10, 3), 2);
}

#[test]
fn a_block_is_aligned_and_keeps_its_region_address_in_front() {
    let information = alloc_information_size();
    for allocated in [8usize, 1000, 1008, 4096, 65536 + 24] {
        for align in [16usize, 32, 128, 4096] {
            let memory = memory_region(allocated, align);
            assert_eq!(memory % align, 0);
            assert!(memory >= allocated + information);
            assert!(memory < allocated + information + align);

            let location = original_pointer_location(memory);
            assert_eq!(location % align_of::<usize>(), 0);
            assert!(location >= allocated);
            assert!(location + size_of::<usize>() <= memory);
        }
    }
}

#[test]
fn a_block_in_a_region_at_a_known_address() {
    let information = alloc_information_size();
    let memory = memory_region(1024 - information, 128);
    assert_eq!(memory, 1024);
    let memory = memory_region(1024 - information + 1, 128);
    assert_eq!(memory, 1152);
    assert_eq!(original_pointer_location(1152), 1152 - information);
}
