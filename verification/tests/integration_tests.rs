//! One simulated host-guest dispatch, end to end: the dispatch machine
//! decides, a guest-resident bump allocator serves the buffer, the host
//! marshals the wire bytes, and the guest-side reader reconstructs the
//! record.

use gers::bump::{BumpAllocator, RawPtr};
use gers::cmd::CmdReader;
use gers::dispatch::{hello_event_for, AllocOutcome, EventTick, TickAction, TickInput};
use gers::events::{encode_hello, HelloEvent};
use gers::guest::gers_error_t as guest_status;
use gers::hooks::{__gers_bump_alloc, __gers_bump_init, __gers_bump_reset};
use gers::meta::PluginMeta;
use gers::plugins::{CallOutcome, HookLookup, Plugin};

/// The simulated address of the guest arena inside its linear memory.
/// The wire protocol reserves address 0 as the null sentinel, so a real
/// arena never sits there.
const ARENA_BASE: u32 = 1024;

#[test]
fn test_simulated_host_guest_dispatch() {
    // Guest side: a module context with an uninitialized event-data
    // allocator, initialized through the init hook as a real host does.
    let mut arena = BumpAllocator::uninit();
    assert_eq!(__gers_bump_init(&mut arena), gers::gers_error_t::Success);

    // Host side: one plugin exporting every hook, past its init phase.
    let mut plugin = Plugin::build(
        PluginMeta {
            name: "core".to_string(),
            version: "0.1.0".to_string(),
        },
        HookLookup::Found,
        HookLookup::Found,
        HookLookup::Found,
        HookLookup::Found,
        HookLookup::Found,
    )
    .unwrap();
    plugin.complete_init(Some(CallOutcome::Status(0)));

    let payload = hello_event_for(42);
    let (mut tick, mut action) = EventTick::begin(&plugin, payload);
    let mut guest_ptr: Option<RawPtr> = None;
    let mut delivered: Option<HelloEvent> = None;
    let mut seen_tag: Option<i32> = None;

    loop {
        match action {
            TickAction::Finished => break,
            TickAction::CallReset => {
                let status = __gers_bump_reset(&mut arena);
                let input = TickInput::ResetDone(CallOutcome::Status(status.code() as i32));
                action = tick.step(&plugin, input);
            }
            TickAction::CallAlloc(size) => {
                // The guest's alloc hook returns an offset handle; on the
                // wire it becomes an absolute guest address (0 = null).
                let outcome = match __gers_bump_alloc(&mut arena, size as usize) {
                    Some(ptr) => {
                        let addr = ARENA_BASE + ptr.as_ptr() as u32;
                        guest_ptr = Some(ptr);
                        AllocOutcome::Addr(addr)
                    }
                    None => AllocOutcome::Addr(0),
                };
                action = tick.step(&plugin, TickInput::AllocDone(outcome));
            }
            TickAction::WritePayload(addr, event) => {
                // The host writes through the runtime's memory primitive;
                // here that is a bounds-checked write into the arena.
                let offset = (addr - ARENA_BASE) as usize;
                let wrote = arena
                    .write_at(offset, encode_hello(&event).as_slice())
                    .is_ok();
                action = tick.step(&plugin, TickInput::WriteDone(wrote));
            }
            TickAction::CallUpdate(tag, _addr) => {
                // Guest side of the update hook: read the record back
                // through the reader over the same arena.
                seen_tag = Some(tag);
                let reader = CmdReader::new(&arena).unwrap();
                delivered = reader.read(guest_ptr.as_ref());
                let status = match delivered {
                    Some(_) => guest_status::Success,
                    None => guest_status::GenericError,
                };
                let input = TickInput::UpdateDone(CallOutcome::Status(status.code() as i32));
                action = tick.step(&plugin, input);
            }
        }
    }

    assert!(tick.is_done());
    assert_eq!(seen_tag, Some(1));
    assert_eq!(
        delivered,
        Some(HelloEvent {
            data: 42,
            padding: 0,
            div: 5
        })
    );
}
