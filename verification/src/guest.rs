//! The guest side of the event protocol: the module-resident buffer the
//! host marshals event payloads into, and the update hook that decodes
//! and dispatches them.
//!
//! In a deployed module the observable effect of a dispatched event is
//! the module's own handling of it; here the context records the most
//! recently handled record, so the full host-write / guest-read round
//! trip is checkable. All state is an explicitly owned value held by the
//! module context, never an implicit process-wide singleton.

use crate::events::{decode_hello, spec_decode_hello, EventType, HelloEvent, HELLO_EVENT_SIZE};
use vstd::prelude::*;
use vstd::slice::slice_subrange;

verus! {

/// Status codes a guest module reports back to the host.
#[allow(non_camel_case_types)]
#[derive(Clone, Copy, Debug, PartialEq, Eq, Structural)]
pub enum gers_error_t {
    Success,
    GenericError,
}

impl gers_error_t {
    /// The wire value of this status code.
    pub open spec fn spec_code(self) -> u8 {
        match self {
            gers_error_t::Success => 0,
            gers_error_t::GenericError => 1,
        }
    }

    /// Flatten the status to the integer that crosses the boundary.
    pub fn code(&self) -> (c: u8)
        ensures
            c == self.spec_code(),
    {
        match self {
            gers_error_t::Success => 0,
            gers_error_t::GenericError => 1,
        }
    }
}

/// Mathematical model of a [`GuestCore`]: the event-data buffer contents
/// and the most recently handled record.
pub struct GuestCoreView {
    pub event_data: Seq<u8>,
    pub last_hello: Option<HelloEvent>,
}

/// The event-protocol state of one guest module: a linear buffer for
/// event data, reserved at the host's request, and the record most
/// recently dispatched to the module's handler.
pub struct GuestCore {
    event_data: Vec<u8>,
    last_hello: Option<HelloEvent>,
}

impl View for GuestCore {
    type V = GuestCoreView;

    closed spec fn view(&self) -> GuestCoreView {
        GuestCoreView { event_data: self.event_data@, last_hello: self.last_hello }
    }
}

impl GuestCore {
    /// A fresh module context: no buffer reserved, nothing handled yet.
    pub fn new() -> (g: Self)
        ensures
            g@.event_data.len() == 0,
            g@.last_hello is None,
    {
        GuestCore { event_data: Vec::new(), last_hello: None }
    }

    /// The record most recently handled by [`GuestCore::hello_handler`].
    pub fn last_hello(&self) -> (r: Option<HelloEvent>)
        ensures
            r == self@.last_hello,
    {
        self.last_hello
    }

    /// Allocate space in the module's memory for storing event data.
    ///
    /// The module owns its memory, so the host must be polite and request
    /// space so the module can reserve it. On success the result is the
    /// buffer's base handle, which crosses the boundary as the buffer's
    /// address; a failure would cross as the null pointer. Newly reserved
    /// bytes are zeroed; a shrinking request truncates.
    ///
    /// The host must be careful retaining the handle: if this function is
    /// called again, any previously returned handle is invalid.
    #[allow(non_snake_case)]
    pub fn __gers_event_alloc(&mut self, size: u32) -> (r: Option<usize>)
        ensures
            r == Some(0usize),
            final(self)@.event_data.len() == size,
            final(self)@.last_hello == old(self)@.last_hello,
            forall|i: int|
                0 <= i < size && i < old(self)@.event_data.len() ==> final(self)@.event_data[i]
                    == old(self)@.event_data[i],
            forall|i: int|
                old(self)@.event_data.len() <= i < size ==> final(self)@.event_data[i] == 0,
    {
        let len: usize = size as usize;
        if len <= self.event_data.len() {
            self.event_data.truncate(len);
        } else {
            while self.event_data.len() < len
                invariant
                    self.event_data@.len() <= len,
                    old(self)@.event_data.len() <= self.event_data@.len(),
                    self.last_hello == old(self)@.last_hello,
                    forall|i: int|
                        0 <= i < old(self)@.event_data.len() ==> self.event_data@[i] == old(
                            self,
                        )@.event_data[i],
                    forall|i: int|
                        old(self)@.event_data.len() <= i < self.event_data@.len()
                            ==> self.event_data@[i] == 0,
                decreases len - self.event_data@.len(),
            {
                self.event_data.push(0);
            }
        }
        Some(0)
    }

    /// The runtime's memory-access primitive, as the host uses it after
    /// the alloc hook: write a byte range into the module's event-data
    /// buffer at the returned handle. A range that does not fit in the
    /// buffer is refused and the buffer is left untouched.
    pub fn host_write(&mut self, offset: usize, bytes: &[u8]) -> (ok: bool)
        ensures
            ok <==> offset + bytes@.len() <= old(self)@.event_data.len(),
            final(self)@.last_hello == old(self)@.last_hello,
            !ok ==> final(self)@ == old(self)@,
            ok ==> {
                &&& final(self)@.event_data.len() == old(self)@.event_data.len()
                &&& forall|j: int|
                    offset <= j < offset + bytes@.len() ==> final(self)@.event_data[j] == bytes@[j
                        - offset]
                &&& forall|j: int|
                    0 <= j < old(self)@.event_data.len() && !(offset <= j < offset + bytes@.len())
                        ==> final(self)@.event_data[j] == old(self)@.event_data[j]
            },
    {
        if offset > self.event_data.len() || bytes.len() > self.event_data.len() - offset {
            return false;
        }
        let mut i: usize = 0;
        while i < bytes.len()
            invariant
                0 <= i <= bytes@.len(),
                offset + bytes@.len() <= usize::MAX,
                offset + bytes@.len() <= self.event_data@.len(),
                self.event_data@.len() == old(self)@.event_data.len(),
                self.last_hello == old(self)@.last_hello,
                forall|j: int|
                    offset <= j < offset + i ==> self.event_data@[j] == bytes@[j - offset],
                forall|j: int|
                    0 <= j < old(self)@.event_data.len() && !(offset <= j < offset + i)
                        ==> self.event_data@[j] == old(self)@.event_data[j],
            decreases bytes@.len() - i,
        {
            self.event_data.set(offset + i, bytes[i]);
            i = i + 1;
        }
        true
    }

    /// Handler for the `Hello` event: takes note of the received record.
    pub fn hello_handler(&mut self, data: &HelloEvent)
        ensures
            final(self)@.event_data == old(self)@.event_data,
            final(self)@.last_hello == Some(*data),
    {
        self.last_hello = Some(*data);
    }

    /// Update hook for host-driven events.
    ///
    /// The `event_type` tag identifies the concrete record shape the data
    /// buffer contains; an unknown tag is a no-op, never an error. The
    /// data handle is the buffer offset the host's write went to; a
    /// missing handle is the null pointer on the wire. The record is
    /// range-checked against the buffer before it is reinterpreted.
    #[allow(non_snake_case)]
    pub fn __gers_event_update(&mut self, event_type: i32, data_ptr: Option<usize>) -> (e:
        gers_error_t)
        ensures
            EventType::spec_from_tag(event_type) == EventType::NoOp ==> e == gers_error_t::Success
                && final(self)@ == old(self)@,
            EventType::spec_from_tag(event_type) == EventType::Hello ==> match data_ptr {
                None => e == gers_error_t::GenericError && final(self)@ == old(self)@,
                Some(index) => if index + HELLO_EVENT_SIZE <= old(self)@.event_data.len() {
                    &&& e == gers_error_t::Success
                    &&& final(self)@.event_data == old(self)@.event_data
                    &&& final(self)@.last_hello == Some(
                        spec_decode_hello(
                            old(self)@.event_data.subrange(
                                index as int,
                                index + HELLO_EVENT_SIZE as int,
                            ),
                        ),
                    )
                } else {
                    e == gers_error_t::GenericError && final(self)@ == old(self)@
                },
            },
    {
        let et: EventType = EventType::from(event_type);
        match et {
            EventType::NoOp => gers_error_t::Success,
            EventType::Hello => {
                let index = match data_ptr {
                    Some(i) => i,
                    None => {
                        return gers_error_t::GenericError;
                    },
                };
                if self.event_data.len() < HELLO_EVENT_SIZE || index > self.event_data.len()
                    - HELLO_EVENT_SIZE {
                    return gers_error_t::GenericError;
                }
                let bytes = slice_subrange(
                    self.event_data.as_slice(),
                    index,
                    index + HELLO_EVENT_SIZE,
                );
                match decode_hello(bytes) {
                    Some(record) => {
                        self.hello_handler(&record);
                        gers_error_t::Success
                    },
                    None => gers_error_t::GenericError,
                }
            },
        }
    }
}

} // verus!
