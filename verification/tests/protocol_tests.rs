//! Tests of the event envelope codec, the guest-side reader, and the
//! guest module's event hooks.

use gers::bump::BumpAllocator;
use gers::cmd::CmdReader;
use gers::events::{decode_hello, encode_hello, EventType, HelloEvent, HELLO_EVENT_SIZE};
use gers::guest::{gers_error_t, GuestCore};

#[test]
fn test_hello_round_trip() {
    // A counter of 42 gives data=42, padding=0, div=5; the bytes written
    // and read back through the same fixed layout are bit-identical.
    let event = HelloEvent {
        data: 42,
        padding: 0,
        div: 5,
    };
    let bytes = encode_hello(&event);
    assert_eq!(bytes.len(), HELLO_EVENT_SIZE);
    assert_eq!(bytes, vec![42, 0, 0, 0, 0, 0, 5, 0]);
    let back = decode_hello(bytes.as_slice()).unwrap();
    assert_eq!(back, event);
}

#[test]
fn test_hello_round_trip_wide_values() {
    let event = HelloEvent {
        data: 0xDEAD_BEEF,
        padding: 0xAB,
        div: 0xCDEF,
    };
    let back = decode_hello(encode_hello(&event).as_slice()).unwrap();
    assert_eq!(back, event);
}

#[test]
fn test_decode_short_buffer_refused() {
    assert!(decode_hello(&[1, 2, 3, 4, 5, 6, 7]).is_none());
    assert!(decode_hello(&[]).is_none());
}

#[test]
fn test_unknown_tags_decode_to_noop() {
    // Unknown type tags decode to the no-op variant rather than erroring.
    assert_eq!(EventType::from(0), EventType::NoOp);
    assert_eq!(EventType::from(1), EventType::Hello);
    assert_eq!(EventType::from(2), EventType::NoOp);
    assert_eq!(EventType::from(-1), EventType::NoOp);
    assert_eq!(EventType::from(i32::MAX), EventType::NoOp);
    assert_eq!(EventType::NoOp.tag(), 0);
    assert_eq!(EventType::Hello.tag(), 1);
}

#[test]
fn test_guest_event_update_round_trip() {
    // The host's side of one dispatch: ask the guest for a buffer, write
    // the wire bytes into it, then call the update hook with the tag and
    // the handle; the guest decodes the identical record.
    let mut guest = GuestCore::new();
    let event = HelloEvent {
        data: 42,
        padding: 0,
        div: 5,
    };
    let bytes = encode_hello(&event);

    let base = guest
        .__gers_event_alloc(HELLO_EVENT_SIZE as u32)
        .expect("guest refused the buffer");
    assert_eq!(base, 0);
    assert!(guest.host_write(base, bytes.as_slice()));

    let status = guest.__gers_event_update(EventType::Hello.tag(), Some(base));
    assert_eq!(status, gers_error_t::Success);
    assert_eq!(guest.last_hello(), Some(event));
}

#[test]
fn test_guest_event_update_noop_tag() {
    let mut guest = GuestCore::new();
    let _ = guest.__gers_event_alloc(8);
    // An unknown tag dispatches to the no-op variant: success, nothing
    // handled.
    assert_eq!(guest.__gers_event_update(77, Some(0)), gers_error_t::Success);
    assert_eq!(guest.__gers_event_update(0, None), gers_error_t::Success);
    assert_eq!(guest.last_hello(), None);
}

#[test]
fn test_guest_event_update_null_and_out_of_range() {
    let mut guest = GuestCore::new();
    let _ = guest.__gers_event_alloc(8);
    assert_eq!(
        guest.__gers_event_update(1, None),
        gers_error_t::GenericError
    );
    assert_eq!(
        guest.__gers_event_update(1, Some(1)),
        gers_error_t::GenericError
    );
    assert_eq!(guest.last_hello(), None);
}

#[test]
fn test_guest_alloc_resizes_buffer() {
    let mut guest = GuestCore::new();
    assert_eq!(guest.__gers_event_alloc(16), Some(0));
    assert!(guest.host_write(8, &[1, 2, 3, 4, 5, 6, 7, 8]));
    // Growing keeps the prefix and zeroes the new bytes; shrinking
    // truncates.
    assert_eq!(guest.__gers_event_alloc(4), Some(0));
    assert!(!guest.host_write(0, &[9; 8]));
}

#[test]
fn test_cmd_reader_reads_record_from_arena() {
    let mut arena = BumpAllocator::new().unwrap();
    let event = HelloEvent {
        data: 7,
        padding: 3,
        div: 260,
    };
    let ptr = arena.alloc_aligned(HELLO_EVENT_SIZE).unwrap();
    arena
        .write_at(ptr.as_ptr_mut(), encode_hello(&event).as_slice())
        .unwrap();

    let reader = CmdReader::new(&arena).unwrap();
    assert_eq!(reader.read(Some(&ptr)), Some(event));
    assert_eq!(reader.read(None), None);
}

#[test]
fn test_cmd_reader_refuses_uninitialized_arena() {
    let mut arena = BumpAllocator::new().unwrap();
    let ptr = arena.alloc_aligned(HELLO_EVENT_SIZE).unwrap();
    let uninit = BumpAllocator::uninit();
    let reader = CmdReader::new(&uninit).unwrap();
    assert_eq!(reader.read(Some(&ptr)), None);
}

#[test]
fn test_guest_status_codes() {
    assert_eq!(gers_error_t::Success.code(), 0);
    assert_eq!(gers_error_t::GenericError.code(), 1);
}
