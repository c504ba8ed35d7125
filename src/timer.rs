//! Frame timing: the time between ticks and since start, in milliseconds.
use vstd::prelude::*;
use std::time::{Duration, Instant};

verus! {

#[verifier::external_type_specification]
#[verifier::external_body]
pub struct ExInstant(Instant);

/// Relies on `std::time::Instant::now`: the current instant. Nothing is
/// known of its value.
#[verifier::external_body]
fn instant_now() -> Instant {
    Instant::now()
}

/// Relies on `std::time::Instant::elapsed`: the time since `start`. Nothing
/// is known of its value.
#[verifier::external_body]
fn elapsed_since(start: &Instant) -> Duration {
    start.elapsed()
}

/// Relies on `std::time::Duration::as_millis`: the whole milliseconds of a
/// duration. Nothing is known of the duration.
#[verifier::external_body]
fn whole_millis(d: &Duration) -> u128 {
    d.as_millis()
}

/// Counts frames and the time between them.
pub struct Timer {
    pub start: Instant,
    /// Milliseconds from start to the last tick.
    pub last_frame: u64,
    /// Milliseconds between the last two ticks.
    pub delta: u64,
    /// Milliseconds accumulated over all ticks.
    pub accumulated: u64,
    pub frame_count: u64,
}

impl Timer {
    /// The total accumulated always equals the time of the last tick.
    pub open spec fn wf(self) -> bool {
        self.accumulated == self.last_frame
    }

    /// A timer started now, with no frame counted.
    pub fn new() -> (t: Timer)
        ensures
            t.wf(),
            t.last_frame == 0,
            t.delta == 0,
            t.accumulated == 0,
            t.frame_count == 0,
    {
        Timer { start: instant_now(), last_frame: 0, delta: 0, accumulated: 0, frame_count: 0 }
    }

    /// Counts a frame that happened `now` milliseconds after start. A clock
    /// reading earlier than the last tick counts as no time passed.
    pub fn tick_at(&mut self, now: u64)
        requires
            old(self).wf(),
            old(self).frame_count < u64::MAX,
        ensures
            final(self).wf(),
            final(self).delta == if now >= old(self).last_frame {
                now - old(self).last_frame
            } else {
                0
            },
            final(self).last_frame == old(self).last_frame + final(self).delta,
            final(self).accumulated == old(self).accumulated + final(self).delta,
            final(self).frame_count == old(self).frame_count + 1,
    {
        let d = if now >= self.last_frame {
            now - self.last_frame
        } else {
            0
        };
        self.delta = d;
        self.last_frame = self.last_frame + d;
        self.accumulated = self.accumulated + d;
        self.frame_count = self.frame_count + 1;
    }

    /// Counts a frame at the current time.
    pub fn tick(&mut self)
        requires
            old(self).wf(),
            old(self).frame_count < u64::MAX,
        ensures
            final(self).wf(),
            final(self).last_frame == old(self).last_frame + final(self).delta,
            final(self).frame_count == old(self).frame_count + 1,
    {
        let since = elapsed_since(&self.start);
        let ms = whole_millis(&since);
        let now: u64 = if ms <= u64::MAX as u128 {
            ms as u64
        } else {
            u64::MAX
        };
        self.tick_at(now);
    }

    pub fn delta_millis(&self) -> (r: u64)
        ensures
            r == self.delta,
    {
        self.delta
    }

    pub fn elapsed_millis(&self) -> (r: u64)
        ensures
            r == self.accumulated,
    {
        self.accumulated
    }
}

impl Default for Timer {
    /// A timer started now.
    fn default() -> (t: Timer)
        ensures
            t.wf(),
            t.last_frame == 0,
            t.frame_count == 0,
    {
        Timer::new()
    }
}

} // verus!
