//! Guest-side reader for event records handed over by the host.
//!
//! The reader validates that a given handle is present (a missing handle
//! is the null address on the wire) and that the whole record lies inside
//! the current arena bounds before reinterpreting the bytes as one record
//! of the agreed fixed layout.

use crate::bump::{AllocView, BumpAllocator, RawPtr};
use crate::events::{decode_hello, spec_decode_hello, HelloEvent, HELLO_EVENT_SIZE};
use vstd::prelude::*;

verus! {

/// Reads single event records out of a [`BumpAllocator`]'s arena.
pub struct CmdReader<'a> {
    arena: &'a BumpAllocator,
}

impl<'a> View for CmdReader<'a> {
    type V = AllocView;

    closed spec fn view(&self) -> AllocView {
        self.arena@
    }
}

impl<'a> CmdReader<'a> {
    /// Validity of the reader: the allocator it reads from is valid.
    pub open spec fn wf(&self) -> bool {
        self@.wf()
    }

    /// Create a reader over the given event-data allocator.
    pub fn new(arena: &'a BumpAllocator) -> (r: Option<CmdReader<'a>>)
        requires
            arena.wf(),
        ensures
            r is Some,
            r matches Some(c) ==> c@ == arena@ && c.wf(),
    {
        Some(CmdReader { arena })
    }

    /// Read one record at the given handle.
    ///
    /// Returns `None` for a missing (null) handle, for an uninitialized
    /// allocator, and for a record that would reach past the arena
    /// bounds; otherwise the record decoded from the arena bytes at the
    /// handle's offset.
    pub fn read(&self, ptr: Option<&RawPtr>) -> (r: Option<HelloEvent>)
        requires
            self.wf(),
        ensures
            match ptr {
                None => r is None,
                Some(p) => if self@.initialized && p@ + HELLO_EVENT_SIZE <= self@.capacity() {
                    r == Some(
                        spec_decode_hello(
                            self@.bytes.subrange(p@ as int, p@ + HELLO_EVENT_SIZE as int),
                        ),
                    )
                } else {
                    r is None
                },
            },
    {
        let p = match ptr {
            Some(p) => p,
            None => {
                return None;
            },
        };
        match self.arena.read_at(p.as_ptr(), HELLO_EVENT_SIZE) {
            Ok(buf) => decode_hello(buf.as_slice()),
            Err(_) => None,
        }
    }
}

} // verus!
