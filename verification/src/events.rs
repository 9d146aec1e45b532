//! Event envelope protocol: a closed set of type tags and one fixed-layout
//! payload record, marshaled by-value across the host-guest boundary.
//!
//! Both sides agree out of band on the exact field order, widths and
//! padding; the encode/decode pair below is that agreement written down.
//! The wire layout of [`HelloEvent`] is 8 bytes: the 32-bit field
//! little-endian at offsets 0..4, the padding byte at offset 4, one spare
//! padding byte fixed to zero at offset 5, and the 16-bit field
//! little-endian at offsets 6..8 (7 logical bytes plus 1 byte of
//! alignment padding).

use vstd::prelude::*;
use vstd::bytes::{
    lemma_auto_spec_u16_to_from_le_bytes, lemma_auto_spec_u32_to_from_le_bytes,
    spec_u16_from_le_bytes, spec_u16_to_le_bytes, spec_u32_from_le_bytes, spec_u32_to_le_bytes,
    u16_from_le_bytes, u16_to_le_bytes, u32_from_le_bytes, u32_to_le_bytes,
};
use vstd::slice::slice_subrange;

verus! {

/// Number of bytes of the [`HelloEvent`] wire record.
pub const HELLO_EVENT_SIZE: usize = 8;

/// The closed enumeration of known event kinds. Tag values are fixed by
/// [`EventType::tag`]; unknown tag values decode to the no-op variant so
/// that newer hosts degrade gracefully against older guests.
#[derive(Clone, Copy, Debug, PartialEq, Eq, Structural)]
pub enum EventType {
    NoOp,
    Hello,
}

impl EventType {
    /// The wire tag of this event kind.
    pub open spec fn spec_tag(self) -> i32 {
        match self {
            EventType::NoOp => 0,
            EventType::Hello => 1,
        }
    }

    /// The event kind a wire tag decodes to: every unknown tag is the
    /// no-op variant, never an error.
    pub open spec fn spec_from_tag(value: i32) -> EventType {
        if value == 1 {
            EventType::Hello
        } else {
            EventType::NoOp
        }
    }

    /// Flatten the event kind to the integer that crosses the boundary.
    pub fn tag(&self) -> (t: i32)
        ensures
            t == self.spec_tag(),
    {
        match self {
            EventType::NoOp => 0,
            EventType::Hello => 1,
        }
    }
}

impl core::convert::From<i32> for EventType {
    /// Decode a wire tag; unknown values yield the no-op variant.
    fn from(value: i32) -> (r: EventType) {
        if value == 1 {
            EventType::Hello
        } else {
            EventType::NoOp
        }
    }
}

impl vstd::std_specs::convert::FromSpecImpl<i32> for EventType {
    open spec fn obeys_from_spec() -> bool {
        true
    }

    open spec fn from_spec(value: i32) -> EventType {
        EventType::spec_from_tag(value)
    }
}

/// Data for the `Hello` event: one 32-bit field, one byte, one 16-bit
/// field.
#[derive(Debug, Clone, Copy, PartialEq, Eq, Structural)]
pub struct HelloEvent {
    pub data: u32,
    pub padding: u8,
    pub div: u16,
}

/// The agreed wire bytes of a [`HelloEvent`].
pub open spec fn spec_encode_hello(e: HelloEvent) -> Seq<u8> {
    spec_u32_to_le_bytes(e.data) + seq![e.padding, 0u8] + spec_u16_to_le_bytes(e.div)
}

/// The record read back from a wire buffer through the same fixed layout.
/// Only the first `HELLO_EVENT_SIZE` bytes are inspected.
pub open spec fn spec_decode_hello(s: Seq<u8>) -> HelloEvent
    recommends
        s.len() >= HELLO_EVENT_SIZE,
{
    HelloEvent {
        data: spec_u32_from_le_bytes(s.subrange(0, 4)),
        padding: s[4],
        div: spec_u16_from_le_bytes(s.subrange(6, 8)),
    }
}

/// Marshal a [`HelloEvent`] into its wire bytes.
pub fn encode_hello(e: &HelloEvent) -> (out: Vec<u8>)
    ensures
        out@ == spec_encode_hello(*e),
        out@.len() == HELLO_EVENT_SIZE,
{
    proof {
        lemma_auto_spec_u32_to_from_le_bytes();
        lemma_auto_spec_u16_to_from_le_bytes();
    }
    let mut out = u32_to_le_bytes(e.data);
    out.push(e.padding);
    out.push(0);
    let div = u16_to_le_bytes(e.div);
    out.push(div[0]);
    out.push(div[1]);
    proof {
        assert(out@ =~= spec_encode_hello(*e));
    }
    out
}

/// Reinterpret a wire buffer as a [`HelloEvent`]. A buffer shorter than
/// the record is refused rather than read out of bounds.
pub fn decode_hello(bytes: &[u8]) -> (r: Option<HelloEvent>)
    ensures
        bytes@.len() >= HELLO_EVENT_SIZE <==> r is Some,
        r matches Some(e) ==> e == spec_decode_hello(bytes@),
{
    if bytes.len() < HELLO_EVENT_SIZE {
        return None;
    }
    let data = u32_from_le_bytes(slice_subrange(bytes, 0, 4));
    let padding = bytes[4];
    let div = u16_from_le_bytes(slice_subrange(bytes, 6, 8));
    Some(HelloEvent { data, padding, div })
}

/// Round trip: writing a record's bytes and reading them back through the
/// same fixed-layout reinterpretation yields bit-identical field values.
pub proof fn lemma_hello_round_trip(e: HelloEvent)
    ensures
        spec_decode_hello(spec_encode_hello(e)) == e,
{
    lemma_auto_spec_u32_to_from_le_bytes();
    lemma_auto_spec_u16_to_from_le_bytes();
    assert(spec_encode_hello(e).subrange(0, 4) =~= spec_u32_to_le_bytes(e.data));
    assert(spec_encode_hello(e).subrange(6, 8) =~= spec_u16_to_le_bytes(e.div));
}

} // verus!
