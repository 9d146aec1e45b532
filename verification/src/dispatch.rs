//! The per-frame dispatch driver, as a verified decision core.
//!
//! Guest hook calls are performed by the surrounding application through
//! the module runtime; every decision between two calls is made here. An
//! [`EventTick`] walks one plugin through one lockstep tick in the fixed
//! order reset, alloc, marshal, update: the driver asks it what to do
//! next ([`TickAction`]), performs the call, and feeds the outcome back
//! ([`TickInput`]). A plugin missing an optional hook simply skips the
//! corresponding phase; a trap or a failure reported by the guest ends
//! that plugin's tick without touching any other plugin.

use crate::events::{EventType, HelloEvent, HELLO_EVENT_SIZE};
use crate::plugins::{CallOutcome, Plugin, PluginView};
use vstd::arithmetic::div_mod::lemma_fundamental_div_mod;
use vstd::prelude::*;

verus! {

/// Result of the allocation hook as seen by the host: the guest address
/// that came back (0 is the null failure sentinel), or a trap.
#[derive(Clone, Copy, Debug, PartialEq, Eq, Structural)]
pub enum AllocOutcome {
    Addr(u32),
    Trapped,
}

/// What the driver should do next for the plugin under dispatch.
#[derive(Clone, Copy, Debug, PartialEq, Eq, Structural)]
pub enum TickAction {
    /// Call the event-reset hook.
    CallReset,
    /// Call the event-alloc hook with the given payload size.
    CallAlloc(u32),
    /// Write the payload's wire bytes to the given guest address through
    /// the runtime's memory-access primitive.
    WritePayload(u32, HelloEvent),
    /// Call the event-update hook with the given type tag and address.
    CallUpdate(i32, u32),
    /// This plugin's tick is over; move on to the next plugin.
    Finished,
}

/// The outcome of the action the driver last performed, fed back to the
/// machine.
#[derive(Clone, Copy, Debug, PartialEq, Eq, Structural)]
pub enum TickInput {
    ResetDone(CallOutcome),
    AllocDone(AllocOutcome),
    /// Whether the payload write went through (the runtime refuses a
    /// write that does not fit in the guest's memory).
    WriteDone(bool),
    UpdateDone(CallOutcome),
}

/// Where an [`EventTick`] stands: which hook call is in flight.
#[derive(Clone, Copy, Debug, PartialEq, Eq, Structural)]
pub enum TickPhase {
    AtReset,
    AtAlloc,
    AtWrite(u32),
    AtUpdate(u32),
    Done,
}

/// Mathematical model of an [`EventTick`].
pub struct TickView {
    pub phase: TickPhase,
    pub payload: HelloEvent,
}

/// The expected input kind for each phase.
pub open spec fn input_matches(phase: TickPhase, input: TickInput) -> bool {
    match phase {
        TickPhase::AtReset => input is ResetDone,
        TickPhase::AtAlloc => input is AllocDone,
        TickPhase::AtWrite(_) => input is WriteDone,
        TickPhase::AtUpdate(_) => input is UpdateDone,
        TickPhase::Done => false,
    }
}

/// Entry into the allocation phase: ask the alloc hook for a payload
/// buffer, or finish at once for a module that does not export one (no
/// buffer can be had, so nothing can be dispatched).
pub open spec fn spec_alloc_entry(p: PluginView) -> (TickPhase, TickAction) {
    if p.has_event_alloc {
        (TickPhase::AtAlloc, TickAction::CallAlloc(HELLO_EVENT_SIZE as u32))
    } else {
        (TickPhase::Done, TickAction::Finished)
    }
}

/// Start of one plugin's tick: only a plugin whose event-init phase has
/// succeeded is dispatched at all; its reset phase is skipped when the
/// module exports no reset hook.
pub open spec fn spec_begin(p: PluginView) -> (TickPhase, TickAction) {
    if !p.ready {
        (TickPhase::Done, TickAction::Finished)
    } else if p.has_event_reset {
        (TickPhase::AtReset, TickAction::CallReset)
    } else {
        spec_alloc_entry(p)
    }
}

/// One transition of the tick machine, given the outcome of the previous
/// action. A failed or trapped reset skips the rest of this plugin's
/// dispatch for the tick (previously returned pointers can no longer be
/// trusted); a null or trapped allocation, or a refused write, likewise
/// ends the tick; a missing update hook skips the final call.
pub open spec fn spec_step(p: PluginView, phase: TickPhase, payload: HelloEvent, input: TickInput) -> (
    TickPhase,
    TickAction,
) {
    match (phase, input) {
        (TickPhase::AtReset, TickInput::ResetDone(outcome)) => {
            if outcome == CallOutcome::Status(0) {
                spec_alloc_entry(p)
            } else {
                (TickPhase::Done, TickAction::Finished)
            }
        },
        (TickPhase::AtAlloc, TickInput::AllocDone(AllocOutcome::Addr(addr))) => {
            if addr != 0 {
                (TickPhase::AtWrite(addr), TickAction::WritePayload(addr, payload))
            } else {
                (TickPhase::Done, TickAction::Finished)
            }
        },
        (TickPhase::AtAlloc, TickInput::AllocDone(AllocOutcome::Trapped)) => (
            TickPhase::Done,
            TickAction::Finished,
        ),
        (TickPhase::AtWrite(addr), TickInput::WriteDone(wrote)) => {
            if wrote && p.has_event_update {
                (
                    TickPhase::AtUpdate(addr),
                    TickAction::CallUpdate(EventType::Hello.spec_tag(), addr),
                )
            } else {
                (TickPhase::Done, TickAction::Finished)
            }
        },
        (TickPhase::AtUpdate(_), TickInput::UpdateDone(_)) => (
            TickPhase::Done,
            TickAction::Finished,
        ),
        _ => (TickPhase::Done, TickAction::Finished),
    }
}

/// One plugin's walk through one lockstep tick.
pub struct EventTick {
    phase: TickPhase,
    payload: HelloEvent,
}

impl View for EventTick {
    type V = TickView;

    closed spec fn view(&self) -> TickView {
        TickView { phase: self.phase, payload: self.payload }
    }
}

impl EventTick {
    /// Consistency of a tick with the plugin it is dispatching: the
    /// machine only ever stands at a phase whose hook the module exports
    /// and only dispatches ready plugins.
    pub open spec fn wf(&self, p: PluginView) -> bool {
        &&& (self@.phase is AtReset ==> p.ready && p.has_event_reset)
        &&& (self@.phase is AtAlloc ==> p.ready && p.has_event_alloc)
        &&& (self@.phase is AtWrite ==> p.ready && p.has_event_alloc)
        &&& (self@.phase is AtUpdate ==> p.ready && p.has_event_alloc && p.has_event_update)
    }

    /// Begin a tick for one plugin with the given payload, returning the
    /// first action to perform.
    pub fn begin(p: &Plugin, payload: HelloEvent) -> (r: (EventTick, TickAction))
        ensures
            r.0.wf(p@),
            r.0@.payload == payload,
            r.0@.phase == spec_begin(p@).0,
            r.1 == spec_begin(p@).1,
    {
        if !p.is_ready() {
            (EventTick { phase: TickPhase::Done, payload }, TickAction::Finished)
        } else if p.has_event_reset_fn() {
            (EventTick { phase: TickPhase::AtReset, payload }, TickAction::CallReset)
        } else {
            Self::alloc_entry(p, payload)
        }
    }

    /// Enter the allocation phase (or finish, for a module without an
    /// alloc hook).
    fn alloc_entry(p: &Plugin, payload: HelloEvent) -> (r: (EventTick, TickAction))
        requires
            p@.ready,
        ensures
            r.0.wf(p@),
            r.0@.payload == payload,
            r.0@.phase == spec_alloc_entry(p@).0,
            r.1 == spec_alloc_entry(p@).1,
    {
        if p.has_event_alloc_fn() {
            (
                EventTick { phase: TickPhase::AtAlloc, payload },
                TickAction::CallAlloc(HELLO_EVENT_SIZE as u32),
            )
        } else {
            (EventTick { phase: TickPhase::Done, payload }, TickAction::Finished)
        }
    }

    /// Feed back the outcome of the previous action and learn the next
    /// one.
    pub fn step(&mut self, p: &Plugin, input: TickInput) -> (a: TickAction)
        requires
            old(self).wf(p@),
            input_matches(old(self)@.phase, input),
        ensures
            final(self).wf(p@),
            final(self)@.payload == old(self)@.payload,
            final(self)@.phase == spec_step(p@, old(self)@.phase, old(self)@.payload, input).0,
            a == spec_step(p@, old(self)@.phase, old(self)@.payload, input).1,
    {
        let action: TickAction;
        match (self.phase, input) {
            (TickPhase::AtReset, TickInput::ResetDone(outcome)) => {
                if outcome == CallOutcome::Status(0) {
                    let (tick, a) = Self::alloc_entry(p, self.payload);
                    self.phase = tick.phase_of();
                    action = a;
                } else {
                    self.phase = TickPhase::Done;
                    action = TickAction::Finished;
                }
            },
            (TickPhase::AtAlloc, TickInput::AllocDone(AllocOutcome::Addr(addr))) => {
                if addr != 0 {
                    self.phase = TickPhase::AtWrite(addr);
                    action = TickAction::WritePayload(addr, self.payload);
                } else {
                    self.phase = TickPhase::Done;
                    action = TickAction::Finished;
                }
            },
            (TickPhase::AtWrite(addr), TickInput::WriteDone(wrote)) => {
                if wrote && p.has_event_update_fn() {
                    self.phase = TickPhase::AtUpdate(addr);
                    action = TickAction::CallUpdate(EventType::Hello.tag(), addr);
                } else {
                    self.phase = TickPhase::Done;
                    action = TickAction::Finished;
                }
            },
            _ => {
                self.phase = TickPhase::Done;
                action = TickAction::Finished;
            },
        }
        action
    }

    /// Whether this plugin's tick is over.
    pub fn is_done(&self) -> (b: bool)
        ensures
            b == (self@.phase is Done),
    {
        match self.phase {
            TickPhase::Done => true,
            _ => false,
        }
    }

    /// The phase the machine stands at.
    fn phase_of(&self) -> (ph: TickPhase)
        ensures
            ph == self@.phase,
    {
        self.phase
    }
}

/// A plugin that lacks an optional hook never has that hook's phase run:
/// no action of that hook's kind is ever produced for it, at the start of
/// a tick or at any later step.
pub proof fn lemma_missing_hook_skipped(p: PluginView, t: EventTick, input: TickInput)
    requires
        t.wf(p),
    ensures
        !p.has_event_reset ==> spec_begin(p).1 != TickAction::CallReset && !(spec_step(
            p,
            t@.phase,
            t@.payload,
            input,
        ).1 is CallReset),
        !p.has_event_alloc ==> !(spec_begin(p).1 is CallAlloc) && !(spec_step(
            p,
            t@.phase,
            t@.payload,
            input,
        ).1 is CallAlloc) && !(spec_step(p, t@.phase, t@.payload, input).1 is WritePayload) && !(
        spec_step(p, t@.phase, t@.payload, input).1 is CallUpdate),
        !p.has_event_update ==> !(spec_begin(p).1 is CallUpdate) && !(spec_step(
            p,
            t@.phase,
            t@.payload,
            input,
        ).1 is CallUpdate),
{
}

/// The actions the driver opens a tick with, one entry per plugin, in
/// dispatch order.
pub open spec fn spec_begin_all(plugins: Seq<PluginView>) -> Seq<(TickPhase, TickAction)> {
    plugins.map_values(|p: PluginView| spec_begin(p))
}

/// Plugins are dispatched independently: what the driver does for the
/// plugin at one position of the registry is a function of that plugin's
/// own record alone, so a skipped phase for one plugin cannot affect any
/// other plugin's dispatch in the same tick.
pub proof fn lemma_dispatch_independent(
    plugins_a: Seq<PluginView>,
    plugins_b: Seq<PluginView>,
    i: int,
)
    requires
        0 <= i < plugins_a.len(),
        0 <= i < plugins_b.len(),
        plugins_a[i] == plugins_b[i],
    ensures
        spec_begin_all(plugins_a)[i] == spec_begin_all(plugins_b)[i],
{
}

/// Fixed-interval lockstep cadence: add the frame's delta time to the
/// accumulator and fire one event tick per whole interval it now
/// contains (the catch-up loop), each tick consuming exactly one
/// interval's worth of accumulated time.
pub fn lockstep_ticks(timer: u64, delta: u64, interval: u64) -> (r: (u64, u64))
    requires
        interval > 0,
        timer + delta <= u64::MAX,
    ensures
        r.0 == (timer + delta) % (interval as int),
        r.1 == (timer + delta) / (interval as int),
        r.0 < interval,
        r.0 + r.1 * interval == timer + delta,
{
    let total: u64 = timer + delta;
    let ticks: u64 = total / interval;
    let remainder: u64 = total % interval;
    proof {
        lemma_fundamental_div_mod(total as int, interval as int);
    }
    (remainder, ticks)
}

/// The event payload for one lockstep tick: the monotonically increasing
/// tick counter, a zeroed padding byte, and the counter divided by eight,
/// truncated to the 16-bit field.
pub fn hello_event_for(counter: u32) -> (e: HelloEvent)
    ensures
        e.data == counter,
        e.padding == 0,
        e.div == (counter / 8) as u16,
{
    HelloEvent { data: counter, padding: 0, div: #[verifier::truncate] ((counter / 8) as u16) }
}

} // verus!
