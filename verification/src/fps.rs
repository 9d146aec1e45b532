//! Frame-rate throttling decisions.
//!
//! Measuring the wall clock and actually yielding or sleeping are the
//! caller's business; this module decides, from the elapsed time and the
//! throttle policy, what the caller should do next, one step at a time,
//! until the target delta time has passed.

use vstd::prelude::*;

verus! {

/// How to spend the time left until the target delta time has passed.
#[derive(Debug, Clone, Copy, PartialEq, Eq, Structural)]
pub enum FpsThrottlePolicy {
    /// Do not throttle at all.
    Off,
    /// Yield the thread's remaining time slice and measure again.
    Yield,
    /// Sleep in small slices until the target is reached.
    Sleep,
}

/// The caller's next move while throttling.
#[derive(Debug, Clone, Copy, PartialEq, Eq, Structural)]
pub enum ThrottleStep {
    /// The target delta time has passed (or the policy never waits):
    /// stop throttling and start the next frame.
    Done,
    /// Yield the thread, measure the elapsed time again, and ask again.
    YieldNow,
    /// Sleep one small slice, measure the elapsed time again, and ask
    /// again.
    SleepNow,
    /// Measure again without waiting (the elapsed time has exactly
    /// reached the target; one more measurement will pass it).
    Spin,
}

/// Mathematical model of an [`FpsThrottle`]: the target frame time in
/// nanoseconds and the policy.
pub struct FpsThrottleView {
    pub target_nanos: nat,
    pub policy: FpsThrottlePolicy,
}

/// The throttle decision for one iteration, given the time elapsed since
/// the frame started: keep waiting (in the way the policy prescribes)
/// while the elapsed time has not passed the target.
pub open spec fn spec_throttle_step(v: FpsThrottleView, elapsed: int) -> ThrottleStep {
    if elapsed > v.target_nanos {
        ThrottleStep::Done
    } else {
        match v.policy {
            FpsThrottlePolicy::Off => ThrottleStep::Done,
            FpsThrottlePolicy::Yield => ThrottleStep::YieldNow,
            FpsThrottlePolicy::Sleep => if elapsed < v.target_nanos {
                ThrottleStep::SleepNow
            } else {
                ThrottleStep::Spin
            },
        }
    }
}

/// Per-frame throttle towards a fixed target frame rate.
pub struct FpsThrottle {
    target: u64,
    policy: FpsThrottlePolicy,
}

impl View for FpsThrottle {
    type V = FpsThrottleView;

    closed spec fn view(&self) -> FpsThrottleView {
        FpsThrottleView { target_nanos: self.target as nat, policy: self.policy }
    }
}

impl FpsThrottle {
    /// A throttle towards the given frame rate. The target frame time is
    /// one second divided by the target rate, in whole nanoseconds.
    pub fn new(target_fps: u64, policy: FpsThrottlePolicy) -> (t: Self)
        requires
            target_fps > 0,
        ensures
            t@.target_nanos == 1_000_000_000int / (target_fps as int),
            t@.policy == policy,
    {
        FpsThrottle { target: 1_000_000_000 / target_fps, policy }
    }

    /// Decide the next throttling step, given the nanoseconds elapsed
    /// since the last frame's reference instant. The caller loops:
    /// perform the step, measure again, ask again, until `Done`.
    pub fn throttle_step(&self, elapsed_nanos: u64) -> (s: ThrottleStep)
        ensures
            s == spec_throttle_step(self@, elapsed_nanos as int),
    {
        if elapsed_nanos > self.target {
            return ThrottleStep::Done;
        }
        match self.policy {
            FpsThrottlePolicy::Off => ThrottleStep::Done,
            FpsThrottlePolicy::Yield => ThrottleStep::YieldNow,
            FpsThrottlePolicy::Sleep => if elapsed_nanos < self.target {
                ThrottleStep::SleepNow
            } else {
                ThrottleStep::Spin
            },
        }
    }
}

} // verus!
