//! The delay and sound timers, which count down sixty times a second of real
//! time, however fast the interpreter runs.

use std::time::Instant;
use core::time::Duration;
use vstd::prelude::*;

verus! {

/// Milliseconds between two ticks of the timers: a sixtieth of a second,
/// rounded down.
pub const TIMER_RATE: u64 = 1000 / 60;

/// A point of the host's monotonic clock. Nothing is known of its value.
#[verifier::external_type_specification]
#[verifier::external_body]
pub struct ExInstant(Instant);

/// `Instant::now` reads the host's clock: nothing is claimed of what it
/// returns.
pub assume_specification[ Instant::now ]() -> Instant;

/// `Instant::elapsed` measures the time since the instant was taken: nothing
/// is claimed of what it returns.
pub assume_specification[ Instant::elapsed ](instant: &Instant) -> Duration;

/// `Duration::as_secs` returns the whole seconds of a duration: nothing is
/// claimed of their number.
pub assume_specification[ Duration::as_secs ](duration: &Duration) -> u64;

/// `Duration::subsec_nanos` returns the part of a duration beyond its whole
/// seconds, in nanoseconds, which is less than a second.
pub assume_specification[ Duration::subsec_nanos ](duration: &Duration) -> (nanos: u32)
    ensures
        nanos < 1_000_000_000,
;

/// The two timers and the clock that drives them.
pub struct TimerSubsystem {
    /// The delay timer.
    pub delay: u8,
    /// The sound timer: a tone sounds while it is not zero.
    pub sound: u8,
    /// When the timers were last cycled.
    pub now: Instant,
    /// Milliseconds that have passed without yet amounting to a tick.
    pub accumulator: u64,
}

/// Mathematical model of a [`TimerSubsystem`]: the two counters, and the
/// milliseconds that have passed without yet amounting to a tick.
pub struct TimerView {
    pub delay: u8,
    pub sound: u8,
    pub accumulator: u64,
}

impl View for TimerSubsystem {
    type V = TimerView;

    open spec fn view(&self) -> TimerView {
        TimerView { delay: self.delay, sound: self.sound, accumulator: self.accumulator }
    }
}

/// A counter after `ticks` ticks: one less per tick, and never below zero.
pub open spec fn count_down(value: u8, ticks: int) -> u8 {
    if ticks >= value {
        0
    } else {
        (value - ticks) as u8
    }
}

/// Whole milliseconds in `secs` seconds and `subsec_nanos` nanoseconds.
pub open spec fn millis_of(secs: u64, subsec_nanos: u32) -> int {
    secs * 1000 + subsec_nanos / 1_000_000
}

impl TimerView {
    /// Both counters at zero, and no time waiting to be counted.
    pub open spec fn zero() -> TimerView {
        TimerView { delay: 0, sound: 0, accumulator: 0 }
    }

    /// Number of ticks that fall due when `elapsed_ms` more milliseconds
    /// have passed.
    pub open spec fn ticks_due(self, elapsed_ms: u64) -> int {
        (self.accumulator + elapsed_ms) / (TIMER_RATE as int)
    }

    /// The timers after `elapsed_ms` more milliseconds: both counters go
    /// down by the ticks that fall due, and the rest of the time is kept.
    pub open spec fn advanced(self, elapsed_ms: u64) -> TimerView {
        TimerView {
            delay: count_down(self.delay, self.ticks_due(elapsed_ms)),
            sound: count_down(self.sound, self.ticks_due(elapsed_ms)),
            accumulator: ((self.accumulator + elapsed_ms) % (TIMER_RATE as int)) as u64,
        }
    }
}

/// Whole milliseconds in `secs` seconds and `subsec_nanos` nanoseconds, or
/// `u64::MAX` if they are more than that.
pub fn millis(secs: u64, subsec_nanos: u32) -> (ms: u64)
    ensures
        ms == if millis_of(secs, subsec_nanos) <= u64::MAX {
            millis_of(secs, subsec_nanos)
        } else {
            u64::MAX as int
        },
{
    let whole: u128 = secs as u128 * 1000 + (subsec_nanos / 1_000_000) as u128;
    if whole <= u64::MAX as u128 {
        whole as u64
    } else {
        u64::MAX
    }
}

impl TimerSubsystem {
    /// Both timers at zero, with the clock started now.
    pub fn new() -> (timers: TimerSubsystem)
        ensures
            timers@ == TimerView::zero(),
    {
        TimerSubsystem { delay: 0, sound: 0, now: Instant::now(), accumulator: 0 }
    }

    /// Counts down by the time that has passed on the host's clock since
    /// the last call, or since the timers were made.
    pub fn cycle(&mut self)
        ensures
            exists|elapsed_ms: u64| final(self)@ == old(self)@.advanced(elapsed_ms),
            final(self).delay <= old(self).delay,
            final(self).sound <= old(self).sound,
    {
        let elapsed_ms: u64 = self.elapsed_millis();
        self.now = Instant::now();
        self.advance(elapsed_ms);
        assert(self@ == old(self)@.advanced(elapsed_ms));
    }

    /// Counts down by `elapsed_ms` milliseconds.
    pub fn advance(&mut self, elapsed_ms: u64)
        ensures
            final(self)@ == old(self)@.advanced(elapsed_ms),
            final(self).delay <= old(self).delay,
            final(self).sound <= old(self).sound,
    {
        let ghost before = self@;
        let ghost due = before.ticks_due(elapsed_ms);
        let rate: u128 = TIMER_RATE as u128;
        let mut pending: u128 = self.accumulator as u128 + elapsed_ms as u128;
        while pending >= rate
            invariant
                rate == 16,
                before == old(self)@,
                due == before.ticks_due(elapsed_ms),
                pending <= before.accumulator + elapsed_ms,
                pending % 16 == (before.accumulator + elapsed_ms) % 16,
                self.delay == count_down(before.delay, due - pending / 16),
                self.sound == count_down(before.sound, due - pending / 16),
            decreases pending,
        {
            if self.delay == 0 && self.sound == 0 {
                pending = pending % rate;
            } else {
                if self.delay > 0 {
                    self.delay -= 1;
                }
                if self.sound > 0 {
                    self.sound -= 1;
                }
                pending -= rate;
            }
        }
        self.accumulator = pending as u64;
    }

    /// Milliseconds that have passed on the host's clock since the last
    /// cycle.
    fn elapsed_millis(&mut self) -> (ms: u64)
        ensures
            *final(self) == *old(self),
    {
        let dur: Duration = self.now.elapsed();
        millis(dur.as_secs(), dur.subsec_nanos())
    }
}

/// Timers never count up, and never below zero; and once a tick is due, a
/// counter that is not yet zero goes down.
pub proof fn lemma_timers_decay(timers: TimerView, elapsed_ms: u64)
    ensures
        0 <= timers.advanced(elapsed_ms).delay <= timers.delay,
        0 <= timers.advanced(elapsed_ms).sound <= timers.sound,
        timers.accumulator + elapsed_ms >= TIMER_RATE && timers.delay > 0 ==> timers.advanced(
            elapsed_ms,
        ).delay < timers.delay,
        timers.accumulator + elapsed_ms >= TIMER_RATE && timers.sound > 0 ==> timers.advanced(
            elapsed_ms,
        ).sound < timers.sound,
{
}

} // verus!
