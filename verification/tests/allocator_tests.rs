//! Tests of the bump allocator, its raw block, and the guest-side hooks.

use gers::bump::{
    align_up, align_word, is_power_of_two, BumpAllocator, BumpError, RawBlock, BLOCK_SIZE,
};
use gers::gers_error_t;
use gers::hooks::{__gers_bump_alloc, __gers_bump_init, __gers_bump_reset};

#[test]
fn test_raw_allocation() {
    let size = 0x1000;

    let block = RawBlock::new(size).unwrap();
    assert_eq!(block.size(), size);
}

#[test]
fn test_bump_allocation() {
    let mut bump = BumpAllocator::new().unwrap();

    let ptr = bump.allocate(16, 8).unwrap();
    assert_eq!(bump.cursor(), 16);
    assert_eq!(ptr.as_ptr(), 0);

    let ptr = bump.allocate(16, 8).unwrap();
    assert_eq!(bump.cursor(), 32);
    assert_eq!(ptr.as_ptr(), 16);
}

#[test]
fn test_align_word() {
    let word = std::mem::size_of::<usize>();
    let word_double = std::mem::size_of::<usize>() * 2;
    assert_eq!(align_word(2), word);
    assert_eq!(align_word(4), word);
    assert_eq!(align_word(8), word);
    assert_eq!(align_word(12), word_double);
    assert_eq!(align_word(16), word_double);
    assert_eq!(align_word(32), word_double);
}

#[test]
fn test_no_space() {
    let mut bump = BumpAllocator::new().unwrap();

    match bump.allocate(BLOCK_SIZE, BLOCK_SIZE) {
        Ok(_) => panic!("allocation unexpectedly succeeded"),
        Err(BumpError::NoSpace) => { /* success */ }
        Err(err) => panic!("unexpected error: {:?}", err),
    }
}

#[test]
fn test_align_up_values() {
    assert_eq!(align_up(0, 8), 0);
    assert_eq!(align_up(1, 8), 8);
    assert_eq!(align_up(8, 8), 8);
    assert_eq!(align_up(9, 8), 16);
    assert_eq!(align_up(17, 16), 32);
    assert_eq!(align_up(5, 1), 5);
}

#[test]
fn test_is_power_of_two() {
    assert!(!is_power_of_two(0));
    assert!(is_power_of_two(1));
    assert!(is_power_of_two(2));
    assert!(!is_power_of_two(3));
    assert!(is_power_of_two(4096));
    assert!(!is_power_of_two(4097));
    assert!(!is_power_of_two(6));
}

#[test]
fn test_unaligned_cursor_skips_to_aligned_offset() {
    // Property: each returned offset is the smallest address at or after
    // the cursor that satisfies the alignment, and the cursor ends at
    // offset + size.
    let mut bump = BumpAllocator::new().unwrap();
    let ptr = bump.allocate(3, 1).unwrap();
    assert_eq!(ptr.as_ptr(), 0);
    assert_eq!(bump.cursor(), 3);
    let ptr = bump.allocate(16, 8).unwrap();
    assert_eq!(ptr.as_ptr(), 8);
    assert_eq!(bump.cursor(), 24);
}

#[test]
fn test_failed_allocation_leaves_state_unchanged() {
    // Atomicity: the cursor is identical before and after any error path.
    let mut bump = BumpAllocator::new().unwrap();
    bump.allocate(100, 4).unwrap();
    let cursor_before = bump.cursor();

    assert_eq!(bump.allocate(BLOCK_SIZE, 8), Err(BumpError::NoSpace));
    assert_eq!(bump.cursor(), cursor_before);

    assert_eq!(bump.allocate(8, 0), Err(BumpError::BadRequest));
    assert_eq!(bump.cursor(), cursor_before);

    assert_eq!(bump.allocate(8, 6), Err(BumpError::BadRequest));
    assert_eq!(bump.cursor(), cursor_before);
}

#[test]
fn test_boundary_allocation() {
    // With a 4096-byte arena, two 16-byte/8-aligned allocations end with
    // the cursor at 32. An allocation that would exactly fill the
    // remaining space is refused (the aligned end may not reach the
    // boundary), one byte less is accepted.
    let mut bump = BumpAllocator::new().unwrap();
    assert_eq!(bump.allocate(16, 8).unwrap().as_ptr(), 0);
    assert_eq!(bump.allocate(16, 8).unwrap().as_ptr(), 16);
    assert_eq!(bump.cursor(), 32);

    let remaining = BLOCK_SIZE - 32;
    assert_eq!(bump.allocate(remaining, 8), Err(BumpError::NoSpace));
    let ptr = bump.allocate(remaining - 1, 8).unwrap();
    assert_eq!(ptr.as_ptr(), 32);
    assert_eq!(bump.cursor(), BLOCK_SIZE - 1);
}

#[test]
fn test_reset_restores_capacity() {
    // After a reset, the next allocation with the same parameters as the
    // very first call on a fresh allocator returns the identical offset.
    let mut fresh = BumpAllocator::new().unwrap();
    let first = fresh.allocate(40, 16).unwrap().as_ptr();

    let mut bump = BumpAllocator::new().unwrap();
    bump.allocate(100, 8).unwrap();
    bump.allocate(200, 16).unwrap();
    bump.reset().unwrap();
    assert_eq!(bump.cursor(), 0);
    let offset = bump.allocate(40, 16).unwrap().as_ptr();
    assert_eq!(offset, first);
}

#[test]
fn test_uninitialized_operations_fail() {
    // Every allocator operation before initialization reports the
    // uninitialized error; nothing crashes.
    let mut bump = BumpAllocator::uninit();
    assert_eq!(bump.allocate(8, 8), Err(BumpError::Uninitialized));
    assert_eq!(bump.alloc_aligned(8), Err(BumpError::Uninitialized));
    assert_eq!(bump.reset(), Err(BumpError::Uninitialized));
    assert_eq!(bump.write_at(0, &[1, 2]), Err(BumpError::Uninitialized));
    assert_eq!(bump.read_at(0, 2), Err(BumpError::Uninitialized));
    assert!(!bump.is_initialized());
    assert_eq!(bump.capacity(), 0);
}

#[test]
fn test_initialize_turns_allocator_live() {
    let mut bump = BumpAllocator::uninit();
    bump.initialize().unwrap();
    assert!(bump.is_initialized());
    assert_eq!(bump.capacity(), BumpAllocator::MAX_SIZE);
    let ptr = bump.allocate(8, 8).unwrap();
    assert_eq!(ptr.as_ptr(), 0);
}

#[test]
fn test_raw_block_bad_requests() {
    assert_eq!(RawBlock::new(0).err().unwrap(), BumpError::BadRequest);
    assert_eq!(RawBlock::new(3000).err().unwrap(), BumpError::BadRequest);
    assert_eq!(RawBlock::dangling().size(), 0);
}

#[test]
fn test_write_and_read_bounds() {
    let mut bump = BumpAllocator::new().unwrap();
    bump.write_at(BLOCK_SIZE - 2, &[7, 9]).unwrap();
    assert_eq!(bump.read_at(BLOCK_SIZE - 2, 2).unwrap(), vec![7, 9]);
    assert_eq!(
        bump.write_at(BLOCK_SIZE - 1, &[1, 2]),
        Err(BumpError::BadRequest)
    );
    assert_eq!(bump.read_at(BLOCK_SIZE - 1, 2), Err(BumpError::BadRequest));
}

#[test]
fn test_bump_hooks_drive_allocator() {
    let mut event_data = BumpAllocator::uninit();

    // Reset and alloc before initialization fail without crashing.
    assert_eq!(
        __gers_bump_reset(&mut event_data),
        gers_error_t::AllocUninitialized
    );
    assert!(__gers_bump_alloc(&mut event_data, 8).is_none());

    assert_eq!(__gers_bump_init(&mut event_data), gers_error_t::Success);
    let ptr = __gers_bump_alloc(&mut event_data, 8).unwrap();
    assert_eq!(ptr.as_ptr(), 0);
    assert!(event_data.cursor() > 0);

    assert_eq!(__gers_bump_reset(&mut event_data), gers_error_t::Success);
    assert_eq!(event_data.cursor(), 0);
}

#[test]
fn test_status_codes() {
    assert_eq!(gers_error_t::Success.code(), 0);
    assert_eq!(gers_error_t::GenericError.code(), 1);
    assert_eq!(gers_error_t::BadAlloc.code(), 2);
    assert_eq!(gers_error_t::OutOfMemory.code(), 11);
    assert_eq!(gers_error_t::NoSpace.code(), 12);
    assert_eq!(gers_error_t::AllocUninitialized.code(), 13);
}
