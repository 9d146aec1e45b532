//! Entry points through which the host drives a guest-resident
//! [`BumpAllocator`].
//!
//! In a deployed guest module these functions are exported under exactly
//! these conventional names and operate on the module's own event-data
//! allocator; the allocator is an explicitly owned, explicitly
//! initialized value handed in by the module context, never an implicit
//! process-wide singleton. Only primitive integers cross the boundary:
//! status results are flattened with [`gers_error_t::code`], and a
//! `None` allocation result crosses as the null address sentinel.

use crate::bump::{
    spec_align_word, spec_alloc, spec_reset, BumpAllocator, BumpError, RawPtr, BLOCK_SIZE,
};
use crate::gers_error_t;
use vstd::prelude::*;

verus! {

/// Initialize the bump allocator for event data, (re)acquiring its arena.
#[allow(non_snake_case)]
pub fn __gers_bump_init(event_data: &mut BumpAllocator) -> (e: gers_error_t)
    requires
        old(event_data).wf(),
    ensures
        final(event_data).wf(),
        e == gers_error_t::Success,
        final(event_data)@.initialized,
        final(event_data)@.cursor == 0,
        final(event_data)@.capacity() == BLOCK_SIZE,
{
    match event_data.initialize() {
        Ok(_) => gers_error_t::Success,
        Err(BumpError::BadRequest) => gers_error_t::BadAlloc,
        Err(BumpError::OutOfMemory) => gers_error_t::OutOfMemory,
        Err(BumpError::Uninitialized) => gers_error_t::AllocUninitialized,
        Err(_) => gers_error_t::GenericError,
    }
}

/// Reset the bump allocator, making the whole arena available again.
#[allow(non_snake_case)]
pub fn __gers_bump_reset(event_data: &mut BumpAllocator) -> (e: gers_error_t)
    requires
        old(event_data).wf(),
    ensures
        final(event_data).wf(),
        old(event_data)@.initialized ==> e == gers_error_t::Success && final(event_data)@
            == spec_reset(old(event_data)@),
        !old(event_data)@.initialized ==> e == gers_error_t::AllocUninitialized
            && final(event_data)@ == old(event_data)@,
{
    match event_data.reset() {
        Ok(_) => gers_error_t::Success,
        Err(BumpError::Uninitialized) => gers_error_t::AllocUninitialized,
        Err(_) => gers_error_t::GenericError,
    }
}

/// Allocate space for event data with the default word alignment.
///
/// On failure the result is `None`, which crosses the boundary as the
/// null address sentinel: calls across the boundary cannot propagate rich
/// error types.
#[allow(non_snake_case)]
pub fn __gers_bump_alloc(event_data: &mut BumpAllocator, size: usize) -> (r: Option<RawPtr>)
    requires
        old(event_data).wf(),
    ensures
        final(event_data).wf(),
        ({
            let step: (crate::bump::AllocView, Result<int, BumpError>) = spec_alloc(
                old(event_data)@,
                size as int,
                spec_align_word(size as int),
            );
            match r {
                Some(p) => final(event_data)@ == step.0 && step.1 == Ok::<int, BumpError>(
                    p@ as int,
                ),
                None => final(event_data)@ == old(event_data)@ && step.1 is Err,
            }
        }),
{
    match event_data.alloc_aligned(size) {
        Ok(ptr) => Some(ptr),
        Err(_) => None,
    }
}

} // verus!
