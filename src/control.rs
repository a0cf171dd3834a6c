//! Control-loop state machine: inbound control messages, outbound status
//! messages, frame counting and the sleep budget of each tick.
use vstd::prelude::*;

verus! {

/// Nanoseconds in one second.
pub const NANOS_PER_SECOND: u64 = 1_000_000_000;

/// Tick rate used until a `LoopRateChanged` message arrives.
pub const DEFAULT_LOOP_RATE: u32 = 90;

/// Length of one tick, in nanoseconds, at a rate of `hz` ticks per second.
pub open spec fn period_of(hz: u32) -> u64
    recommends
        hz > 0,
{
    (NANOS_PER_SECOND / (hz as u64)) as u64
}

/// Messages sent by the presentation context into the control loop.
pub enum Control<B> {
    ActiveChanged { active: bool },
    BindingChanged { binding: B },
    LoopRateChanged { loop_rate_hz: u32 },
    Exiting,
}

/// Messages sent by the control loop to the presentation context.
#[derive(PartialEq, Eq, Debug)]
pub enum Status {
    Fps { fps: u32 },
    ScriptError { err: String },
}

/// The frame counter after one more frame, saturating at `u32::MAX`.
pub open spec fn next_count(n: u32) -> u32 {
    if n < u32::MAX {
        (n + 1) as u32
    } else {
        u32::MAX
    }
}

/// Whether a control message may be handed to `ControlLoop::apply`.
pub open spec fn control_ok<B>(msg: Control<B>) -> bool {
    match msg {
        Control::LoopRateChanged { loop_rate_hz } => loop_rate_hz > 0,
        _ => true,
    }
}

/// State owned by the control loop: whether processing is active, the
/// single loaded binding (if any), the tick period and the frame counter.
pub struct ControlLoop<B> {
    active: bool,
    binding: Option<B>,
    period_nanos: u64,
    frames: u32,
}

/// Length of one tick, in nanoseconds, at `hz` ticks per second.
pub fn period_for_rate(hz: u32) -> (r: u64)
    requires
        hz > 0,
    ensures
        r == period_of(hz),
{
    NANOS_PER_SECOND / (hz as u64)
}

/// What is left of a tick's period after `elapsed_nanos` of work: the time
/// to sleep, or zero when the tick already overran its period.
pub fn sleep_budget(period_nanos: u64, elapsed_nanos: u64) -> (r: u64)
    ensures
        elapsed_nanos <= period_nanos ==> r == period_nanos - elapsed_nanos,
        elapsed_nanos > period_nanos ==> r == 0,
{
    if elapsed_nanos <= period_nanos {
        period_nanos - elapsed_nanos
    } else {
        0
    }
}

impl<B> ControlLoop<B> {
    pub closed spec fn is_active(&self) -> bool {
        self.active
    }

    pub closed spec fn current(&self) -> Option<B> {
        self.binding
    }

    pub closed spec fn period(&self) -> u64 {
        self.period_nanos
    }

    pub closed spec fn frame_count(&self) -> u32 {
        self.frames
    }

    /// A loop that is active, holds no binding, runs at the default rate and
    /// has counted no frame.
    pub fn new() -> (r: Self)
        ensures
            r.is_active(),
            r.current() is None,
            r.period() == period_of(DEFAULT_LOOP_RATE),
            r.frame_count() == 0,
    {
        ControlLoop {
            active: true,
            binding: None,
            period_nanos: period_for_rate(DEFAULT_LOOP_RATE),
            frames: 0,
        }
    }

    /// Whether the script should run this tick.
    pub fn is_running(&self) -> (r: bool)
        ensures
            r == self.is_active(),
    {
        self.active
    }

    /// The configured tick period, in nanoseconds.
    pub fn period_nanos(&self) -> (r: u64)
        ensures
            r == self.period(),
    {
        self.period_nanos
    }

    /// Applies one control message. Returns `false` exactly when the message
    /// is `Exiting`, that is when the loop must stop after this tick.
    pub fn apply(&mut self, msg: Control<B>) -> (r: bool)
        requires
            control_ok(msg),
        ensures
            r == !(msg is Exiting),
            final(self).frame_count() == old(self).frame_count(),
            match msg {
                Control::ActiveChanged { active } => final(self).is_active() == active
                    && final(self).current() == old(self).current()
                    && final(self).period() == old(self).period(),
                Control::BindingChanged { binding } => final(self).current() == Some(binding)
                    && final(self).is_active() == old(self).is_active()
                    && final(self).period() == old(self).period(),
                Control::LoopRateChanged { loop_rate_hz } => final(self).period() == period_of(
                    loop_rate_hz,
                ) && final(self).is_active() == old(self).is_active() && final(self).current()
                    == old(self).current(),
                Control::Exiting => final(self).is_active() == old(self).is_active()
                    && final(self).current() == old(self).current()
                    && final(self).period() == old(self).period(),
            },
    {
        match msg {
            Control::ActiveChanged { active } => {
                self.active = active;
                true
            },
            Control::BindingChanged { binding } => {
                self.binding = Some(binding);
                true
            },
            Control::LoopRateChanged { loop_rate_hz } => {
                self.period_nanos = period_for_rate(loop_rate_hz);
                true
            },
            Control::Exiting => false,
        }
    }

    /// Counts one frame. When `second_elapsed` (the once-per-second timer
    /// fired), returns the count including this frame as an `Fps` status and
    /// resets the counter. The counter saturates at `u32::MAX`.
    pub fn count_frame(&mut self, second_elapsed: bool) -> (r: Option<Status>)
        ensures
            final(self).is_active() == old(self).is_active(),
            final(self).current() == old(self).current(),
            final(self).period() == old(self).period(),
            second_elapsed ==> r == Some(Status::Fps { fps: next_count(old(self).frame_count()) }),
            second_elapsed ==> final(self).frame_count() == 0,
            !second_elapsed ==> r is None,
            !second_elapsed ==> final(self).frame_count() == next_count(old(self).frame_count()),
    {
        if self.frames < u32::MAX {
            self.frames = self.frames + 1;
        }
        if second_elapsed {
            let fps = self.frames;
            self.frames = 0;
            Some(Status::Fps { fps })
        } else {
            None
        }
    }

    /// Takes the binding out for this tick's script run, when the loop is
    /// active and one is loaded. The caller hands it back with
    /// `script_finished`.
    pub fn take_binding(&mut self) -> (r: Option<B>)
        ensures
            final(self).is_active() == old(self).is_active(),
            final(self).period() == old(self).period(),
            final(self).frame_count() == old(self).frame_count(),
            old(self).is_active() ==> r == old(self).current() && final(self).current() is None,
            !old(self).is_active() ==> r is None && final(self).current() == old(self).current(),
    {
        if self.active {
            self.binding.take()
        } else {
            None
        }
    }

    /// Records the outcome of a script run on `binding`. On success the
    /// binding goes back into the slot and no status is emitted; on a
    /// script error the binding is dropped, the slot stays empty and exactly
    /// one `ScriptError` status carries the message.
    pub fn script_finished(&mut self, binding: B, outcome: Result<(), String>) -> (r: Option<
        Status,
    >)
        ensures
            final(self).is_active() == old(self).is_active(),
            final(self).period() == old(self).period(),
            final(self).frame_count() == old(self).frame_count(),
            match outcome {
                Ok(()) => r is None && final(self).current() == Some(binding),
                Err(err) => r == Some(Status::ScriptError { err }) && final(self).current() is None,
            },
    {
        match outcome {
            Ok(()) => {
                self.binding = Some(binding);
                None
            },
            Err(err) => {
                self.binding = None;
                Some(Status::ScriptError { err })
            },
        }
    }
}

} // verus!
