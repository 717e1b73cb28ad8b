//! Pause-aware elapsed-time accounting for one track.
//!
//! The clock never asks for the time itself: every operation takes the
//! current time in milliseconds as an argument, so the whole state machine
//! is verified for every possible timing.  While the track plays, elapsed
//! time is the wall-clock time since the track started minus the time spent
//! paused; while it is paused, elapsed time stays frozen at the value
//! captured when the pause began.  Only the transition hook mutates state,
//! so rapid pause/resume pairs can neither lose nor double-count time.

use vstd::prelude::*;

verus! {

/// Clock state for the currently playing track.
pub struct PlaybackClock {
    /// When the track started, in milliseconds.
    pub start_ms: u64,
    /// Total time spent in pauses that have already ended, in milliseconds.
    pub accumulated_pause_ms: u64,
    /// When the current pause began, if the track is paused.
    pub pause_started_ms: Option<u64>,
    /// The elapsed value captured when the current pause began; shown
    /// unchanged for as long as the pause lasts.
    pub frozen_elapsed_ms: u64,
}

impl PlaybackClock {
    /// Whether the clock is currently in a pause.
    pub open spec fn is_paused(self) -> bool {
        self.pause_started_ms is Some
    }

    /// Well-formedness at time `now_ms`: the track started in the past, no
    /// more time was spent paused than has passed at all, and while paused
    /// the frozen value is exactly the elapsed time at the pause start.
    pub open spec fn valid_at(self, now_ms: u64) -> bool {
        match self.pause_started_ms {
            None => self.start_ms + self.accumulated_pause_ms <= now_ms,
            Some(p) => self.start_ms + self.accumulated_pause_ms <= p && p <= now_ms
                && self.frozen_elapsed_ms == p - self.start_ms - self.accumulated_pause_ms,
        }
    }

    /// Elapsed playing time at `now_ms`: wall-clock time since the start
    /// minus all paused time, frozen while a pause is ongoing.
    pub open spec fn elapsed_spec(self, now_ms: u64) -> u64 {
        match self.pause_started_ms {
            None => ((now_ms - self.start_ms) - self.accumulated_pause_ms) as u64,
            Some(p) => self.frozen_elapsed_ms,
        }
    }

    /// A clock that has just started its track at `now_ms`.
    pub fn on_track_start(now_ms: u64) -> (r: PlaybackClock)
        ensures
            r == (PlaybackClock {
                start_ms: now_ms,
                accumulated_pause_ms: 0,
                pause_started_ms: None,
                frozen_elapsed_ms: 0,
            }),
            forall|t: u64| t >= now_ms ==> r.valid_at(t),
            r.elapsed_spec(now_ms) == 0,
    {
        PlaybackClock {
            start_ms: now_ms,
            accumulated_pause_ms: 0,
            pause_started_ms: None,
            frozen_elapsed_ms: 0,
        }
    }

    /// Observes the sink's pause state at `now_ms` and records a transition
    /// if one happened.  Entering a pause captures the current elapsed value
    /// and the pause start; leaving one adds the pause's length to the
    /// accumulator.  The elapsed value is exactly preserved across the call,
    /// and repeated observations of an unchanged state mutate nothing.
    pub fn on_pause_transition(&mut self, is_paused_now: bool, now_ms: u64)
        requires
            old(self).valid_at(now_ms),
        ensures
            final(self).valid_at(now_ms),
            final(self).is_paused() == is_paused_now,
            final(self).elapsed_spec(now_ms) == old(self).elapsed_spec(now_ms),
            final(self).start_ms == old(self).start_ms,
            is_paused_now == old(self).is_paused() ==> *final(self) == *old(self),
            forall|t: u64| t >= now_ms ==> final(self).valid_at(t),
    {
        if is_paused_now {
            if self.pause_started_ms.is_none() {
                self.frozen_elapsed_ms = (now_ms - self.start_ms) - self.accumulated_pause_ms;
                self.pause_started_ms = Some(now_ms);
            }
        } else {
            if let Some(pause_start) = self.pause_started_ms {
                self.accumulated_pause_ms = self.accumulated_pause_ms + (now_ms - pause_start);
                self.pause_started_ms = None;
            }
        }
    }

    /// The elapsed playing time at `now_ms`.  Reading it is side-effect
    /// free, so repeated reads at one instant agree.
    pub fn elapsed(&self, now_ms: u64) -> (r: u64)
        requires
            self.valid_at(now_ms),
        ensures
            r == self.elapsed_spec(now_ms),
    {
        match self.pause_started_ms {
            None => (now_ms - self.start_ms) - self.accumulated_pause_ms,
            Some(_) => self.frozen_elapsed_ms,
        }
    }

    /// While playing, elapsed time never decreases as time passes; while
    /// paused, it is constant.
    pub proof fn lemma_elapsed_monotonic(self, t1: u64, t2: u64)
        requires
            self.valid_at(t1),
            t1 <= t2,
        ensures
            self.valid_at(t2),
            self.elapsed_spec(t1) <= self.elapsed_spec(t2),
            self.is_paused() ==> self.elapsed_spec(t1) == self.elapsed_spec(t2),
    {
    }

    /// While playing, the elapsed value accounts for every passing
    /// millisecond: it is exactly the wall-clock time since the track
    /// started minus the total time spent paused.
    pub proof fn lemma_elapsed_is_wall_clock_minus_pauses(self, now_ms: u64)
        requires
            self.valid_at(now_ms),
            !self.is_paused(),
        ensures
            self.elapsed_spec(now_ms) + self.accumulated_pause_ms + self.start_ms == now_ms,
    {
    }
}

} // verus!
