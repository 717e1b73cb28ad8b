//! The playback session: one state machine from session start to session
//! end.
//!
//! The coordinator loop itself performs I/O (it blocks on the preload
//! channel, feeds the audio sink, polls the keyboard) and therefore lives
//! outside the library; every decision it takes is computed here.  A
//! [`Session`] holds the playlist length, the playback mode, the current
//! slot and the phase, and each event — a preload result, a timeout, a
//! finished track, a forced skip, a key press — is a transition that
//! returns the single [`SessionAction`] the loop must carry out.
//!
//! Stale preload results, tagged with an index other than the awaited one,
//! are dropped without any effect: the sink can only ever receive the
//! stream for the slot the session is waiting for.

use vstd::prelude::*;
use vstd::string::StringExecFns;
use crate::scheduler::{
    Direction, RateGate, next_natural_spec, apply_forced_skip, apply_forced_skip_spec,
    MIN_SKIP_INTERVAL_MS, MIN_TOGGLE_INTERVAL_MS,
};

verus! {

/// Why a track could not be made ready, reported once per failed slot.
#[derive(Clone, Copy, PartialEq, Eq, Structural, Debug)]
pub enum FailureKind {
    /// The file could not be opened or read.
    CannotOpen,
    /// The file was read but could not be decoded.
    DecodeFailed,
    /// No result arrived for the awaited slot within the bounded wait.
    LoadTimedOut,
}

impl FailureKind {
    /// The words shown for this kind on the status line.
    pub open spec fn label_spec(self) -> Seq<char> {
        match self {
            FailureKind::CannotOpen => "cannot open or read"@,
            FailureKind::DecodeFailed => "decode failed"@,
            FailureKind::LoadTimedOut => "load timed out"@,
        }
    }

    /// The words shown for this kind on the status line.
    pub fn label(&self) -> (r: String)
        ensures
            r@ == self.label_spec(),
    {
        match self {
            FailureKind::CannotOpen => String::from_str("cannot open or read"),
            FailureKind::DecodeFailed => String::from_str("decode failed"),
            FailureKind::LoadTimedOut => String::from_str("load timed out"),
        }
    }
}

/// What a successful preload learned about a track.  The decoded stream
/// itself stays with the unverified shell; the session only needs the
/// values shown on the status line.
#[derive(Clone, PartialEq, Eq, Debug)]
pub struct TrackMeta {
    /// Track title, already defaulted when the tags had none.
    pub title: String,
    /// Track artist, already defaulted when the tags had none.
    pub artist: String,
    /// Whole-track length in milliseconds, zero when undeterminable.
    pub total_duration_ms: u64,
}

/// The outcome of one preload attempt.
#[derive(Clone, PartialEq, Eq, Debug)]
pub enum PreloadOutcome {
    /// The track opened and decoded; its metadata is attached.
    Ready(TrackMeta),
    /// The track could not be made ready.
    Failed {
        /// What went wrong.
        kind: FailureKind,
        /// The file name to show with the report.
        display_name: String,
    },
}

/// One message on the preload channel: an outcome tagged with the slot it
/// was produced for.  Each preload attempt sends exactly one.
#[derive(Clone, PartialEq, Eq, Debug)]
pub struct PreloadMessage {
    /// The slot this outcome belongs to.
    pub index: usize,
    /// What the preload attempt produced.
    pub outcome: PreloadOutcome,
}

/// Where the session stands.
#[derive(Clone, Copy, PartialEq, Eq, Structural, Debug)]
pub enum SessionPhase {
    /// Blocked on the preload channel until a result for the current slot
    /// arrives.
    AwaitingPreload,
    /// The current slot's stream is in the sink; ticks render and read
    /// keys.
    Playing,
    /// Nothing more will play.
    Ended,
}

/// The one thing the coordinator loop must do after a transition.
#[derive(Clone, Copy, PartialEq, Eq, Debug)]
pub enum SessionAction {
    /// Nothing: a stale result was dropped, a request was ignored, or an
    /// already-running preload covers the need.
    Ignore,
    /// Start a background preload for this slot.
    StartPreload {
        /// The slot to load.
        index: usize,
    },
    /// Feed the awaited stream to the sink, reset the clock, and, when
    /// `speculative` names a slot, start preloading it in the background.
    BeginPlayback {
        /// The slot to preload while the current one plays, if any.
        speculative: Option<usize>,
    },
    /// Stop the sink at once and start a fresh preload for this slot.
    StopAndPreload {
        /// The slot to load.
        index: usize,
    },
    /// The session is over: stop playback and restore the terminal.
    EndSession,
}

/// The slot to preload while `current` plays: its natural successor,
/// except that a single-track looping list would preload the slot that is
/// itself playing, which is skipped.
pub open spec fn speculative_target_spec(current: usize, total: usize, loop_enabled: bool) -> Option<
    usize,
> {
    match next_natural_spec(current, total, loop_enabled) {
        Some(n) => if n == current {
            None
        } else {
            Some(n)
        },
        None => None,
    }
}

/// How a session advances past a slot whose preload failed or timed out:
/// the slot counts as consumed and is never retried; the successor is
/// preloaded, wrapping when looping, and without either the session ends.
pub open spec fn failure_step(s: Session) -> (Session, SessionAction) {
    match next_natural_spec(s.current_index, s.total_tracks, s.loop_enabled) {
        Some(n) => (
            Session { current_index: n, ..s },
            SessionAction::StartPreload { index: n },
        ),
        None => (Session { phase: SessionPhase::Ended, ..s }, SessionAction::EndSession),
    }
}

/// How a session advances when the playing track ends on its own.  The
/// speculative preload started at playback begin already covers the next
/// slot, so no duplicate preload is issued; only a single-track looping
/// list, which had nothing to preload speculatively, starts one now.
pub open spec fn finish_step(s: Session) -> (Session, SessionAction) {
    match next_natural_spec(s.current_index, s.total_tracks, s.loop_enabled) {
        Some(n) => (
            Session { current_index: n, phase: SessionPhase::AwaitingPreload, ..s },
            if speculative_target_spec(s.current_index, s.total_tracks, s.loop_enabled) == Some(n) {
                SessionAction::Ignore
            } else {
                SessionAction::StartPreload { index: n }
            },
        ),
        None => (Session { phase: SessionPhase::Ended, ..s }, SessionAction::EndSession),
    }
}

/// The session coordinator's state.  The unverified loop owns the sink and
/// the channel; it reports every event here and performs the returned
/// action.
pub struct Session {
    /// Number of slots in the (already shuffled) playlist.
    pub total_tracks: usize,
    /// Whether the list starts over after its last slot.
    pub loop_enabled: bool,
    /// The slot that is playing or whose preload is awaited.
    pub current_index: usize,
    /// Where the session stands.
    pub phase: SessionPhase,
    /// Rate limit for forced skips.
    pub skip_gate: RateGate,
    /// Debounce for the pause and mute keys.
    pub toggle_gate: RateGate,
    /// While muted, the volume to restore on unmute, in percent.
    pub muted_volume: Option<u8>,
}

impl Session {
    /// Well-formedness: a non-empty playlist, a current slot inside it, and
    /// the gates configured with their fixed intervals.
    pub open spec fn wf(self) -> bool {
        &&& self.total_tracks > 0
        &&& self.current_index < self.total_tracks
        &&& self.skip_gate.min_interval_ms == MIN_SKIP_INTERVAL_MS
        &&& self.toggle_gate.min_interval_ms == MIN_TOGGLE_INTERVAL_MS
    }

    /// A fresh session at slot 0, awaiting its first preload.  The caller
    /// starts the preload for slot 0 alongside.
    pub fn new(total_tracks: usize, loop_enabled: bool) -> (r: Session)
        requires
            total_tracks > 0,
        ensures
            r.wf(),
            r == (Session {
                total_tracks,
                loop_enabled,
                current_index: 0,
                phase: SessionPhase::AwaitingPreload,
                skip_gate: RateGate { min_interval_ms: MIN_SKIP_INTERVAL_MS, last_fired_ms: None },
                toggle_gate: RateGate {
                    min_interval_ms: MIN_TOGGLE_INTERVAL_MS,
                    last_fired_ms: None,
                },
                muted_volume: None,
            }),
    {
        Session {
            total_tracks,
            loop_enabled,
            current_index: 0,
            phase: SessionPhase::AwaitingPreload,
            skip_gate: RateGate::new(MIN_SKIP_INTERVAL_MS),
            toggle_gate: RateGate::new(MIN_TOGGLE_INTERVAL_MS),
            muted_volume: None,
        }
    }

    /// A preload result arrived while the session awaits the current
    /// slot.  A result tagged with any other slot is stale and is dropped
    /// with no effect; in particular the sink only ever receives the
    /// stream for the awaited slot.  A matching success starts playback
    /// and the speculative preload of the next slot; a matching failure
    /// consumes the slot and moves on.
    pub fn on_preload_result(&mut self, msg: &PreloadMessage) -> (action: SessionAction)
        requires
            old(self).wf(),
            old(self).phase == SessionPhase::AwaitingPreload,
        ensures
            final(self).wf(),
            action is BeginPlayback ==> msg.index == old(self).current_index && msg.outcome
                is Ready,
            msg.index != old(self).current_index ==> action == SessionAction::Ignore && *final(self)
                == *old(self),
            msg.index == old(self).current_index && msg.outcome is Ready ==> *final(self)
                == (Session { phase: SessionPhase::Playing, ..*old(self) }) && action
                == (SessionAction::BeginPlayback {
                speculative: speculative_target_spec(
                    old(self).current_index,
                    old(self).total_tracks,
                    old(self).loop_enabled,
                ),
            }),
            msg.index == old(self).current_index && msg.outcome is Failed ==> (
            *final(self),
            action,
            ) == failure_step(*old(self)),
    {
        if msg.index != self.current_index {
            return SessionAction::Ignore;
        }
        match &msg.outcome {
            PreloadOutcome::Ready(_) => {
                self.phase = SessionPhase::Playing;
                SessionAction::BeginPlayback {
                    speculative: self.speculative_target(),
                }
            },
            PreloadOutcome::Failed { .. } => self.advance_past_failed_slot(),
        }
    }

    /// The bounded wait for the awaited slot ran out: treated exactly like
    /// a failure of that slot.
    pub fn on_preload_timeout(&mut self) -> (action: SessionAction)
        requires
            old(self).wf(),
            old(self).phase == SessionPhase::AwaitingPreload,
        ensures
            final(self).wf(),
            (*final(self), action) == failure_step(*old(self)),
    {
        self.advance_past_failed_slot()
    }

    /// Every preload sender is gone: no result can ever arrive, which is
    /// fatal for the session.
    pub fn on_channel_disconnected(&mut self) -> (action: SessionAction)
        ensures
            *final(self) == (Session { phase: SessionPhase::Ended, ..*old(self) }),
            action == SessionAction::EndSession,
    {
        self.phase = SessionPhase::Ended;
        SessionAction::EndSession
    }

    /// The sink reports the current track finished on its own.
    pub fn on_track_finished(&mut self) -> (action: SessionAction)
        requires
            old(self).wf(),
            old(self).phase == SessionPhase::Playing,
        ensures
            final(self).wf(),
            (*final(self), action) == finish_step(*old(self)),
    {
        match crate::scheduler::next_natural(self.current_index, self.total_tracks, self.loop_enabled) {
            Some(n) => {
                let speculative = self.speculative_target();
                self.current_index = n;
                self.phase = SessionPhase::AwaitingPreload;
                if speculative == Some(n) {
                    SessionAction::Ignore
                } else {
                    SessionAction::StartPreload { index: n }
                }
            },
            None => {
                self.phase = SessionPhase::Ended;
                SessionAction::EndSession
            },
        }
    }

    /// The user asked to skip while a track plays.  A request inside the
    /// minimum interval since the last honoured skip is ignored without a
    /// trace; an illegal request (past either end
    /// without looping) is ignored too.  An honoured skip stops the sink
    /// and always starts a fresh preload for the new slot, because any
    /// speculative preload assumed natural order.
    pub fn on_skip_requested(&mut self, direction: Direction, now_ms: u64) -> (action:
        SessionAction)
        requires
            old(self).wf(),
            old(self).phase == SessionPhase::Playing,
        ensures
            final(self).wf(),
            !old(self).skip_gate.allows(now_ms) ==> action == SessionAction::Ignore && *final(self)
                == *old(self),
            old(self).skip_gate.allows(now_ms) && apply_forced_skip_spec(
                old(self).current_index,
                old(self).total_tracks,
                old(self).loop_enabled,
                direction,
            ) is None ==> action == SessionAction::Ignore && *final(self) == *old(self),
            old(self).skip_gate.allows(now_ms) ==> (apply_forced_skip_spec(
                old(self).current_index,
                old(self).total_tracks,
                old(self).loop_enabled,
                direction,
            ) matches Some(n) ==> *final(self) == (Session {
                current_index: n,
                phase: SessionPhase::AwaitingPreload,
                skip_gate: RateGate {
                    last_fired_ms: Some(now_ms),
                    ..old(self).skip_gate
                },
                ..*old(self)
            }) && action == (SessionAction::StopAndPreload { index: n })),
    {
        if !self.skip_gate.check(now_ms) {
            return SessionAction::Ignore;
        }
        match apply_forced_skip(self.current_index, self.total_tracks, self.loop_enabled, direction) {
            None => SessionAction::Ignore,
            Some(n) => {
                self.current_index = n;
                self.phase = SessionPhase::AwaitingPreload;
                self.skip_gate.last_fired_ms = Some(now_ms);
                SessionAction::StopAndPreload { index: n }
            },
        }
    }

    /// The user asked to quit; the session ends at once, whatever was in
    /// flight.
    pub fn on_quit(&mut self) -> (action: SessionAction)
        ensures
            *final(self) == (Session { phase: SessionPhase::Ended, ..*old(self) }),
            action == SessionAction::EndSession,
    {
        self.phase = SessionPhase::Ended;
        SessionAction::EndSession
    }

    /// The mute key was pressed.  Inside the debounce interval nothing
    /// happens; otherwise muting remembers the sink's volume and returns 0
    /// to set, and unmuting returns the remembered volume.
    pub fn on_mute_key(&mut self, sink_volume_percent: u8, now_ms: u64) -> (new_volume: Option<u8>)
        requires
            old(self).wf(),
        ensures
            final(self).wf(),
            !old(self).toggle_gate.allows(now_ms) ==> new_volume is None && *final(self) == *old(
                self,
            ),
            old(self).toggle_gate.allows(now_ms) ==> final(self).toggle_gate == (RateGate {
                last_fired_ms: Some(now_ms),
                ..old(self).toggle_gate
            }) && final(self).current_index == old(self).current_index && final(self).phase == old(
                self,
            ).phase && final(self).skip_gate == old(self).skip_gate && final(self).total_tracks
                == old(self).total_tracks && final(self).loop_enabled == old(self).loop_enabled,
            old(self).toggle_gate.allows(now_ms) ==> (old(self).muted_volume matches Some(v)
                ==> new_volume == Some(v) && final(self).muted_volume is None),
            old(self).toggle_gate.allows(now_ms) && old(self).muted_volume is None ==> new_volume
                == Some(0u8) && final(self).muted_volume == Some(sink_volume_percent),
    {
        if !self.toggle_gate.try_fire(now_ms) {
            return None;
        }
        match self.muted_volume {
            Some(v) => {
                self.muted_volume = None;
                Some(v)
            },
            None => {
                self.muted_volume = Some(sink_volume_percent);
                Some(0)
            },
        }
    }

    /// The pause key was pressed.  Returns whether the press is honoured
    /// (outside the debounce interval); the caller then toggles the sink
    /// and the clock notices the transition on its next tick.
    pub fn on_pause_key(&mut self, now_ms: u64) -> (honoured: bool)
        requires
            old(self).wf(),
        ensures
            final(self).wf(),
            honoured == old(self).toggle_gate.allows(now_ms),
            honoured ==> *final(self) == (Session {
                toggle_gate: RateGate {
                    last_fired_ms: Some(now_ms),
                    ..old(self).toggle_gate
                },
                ..*old(self)
            }),
            !honoured ==> *final(self) == *old(self),
    {
        self.toggle_gate.try_fire(now_ms)
    }

    /// The slot to preload while the current one plays, if any.
    pub fn speculative_target(&self) -> (r: Option<usize>)
        requires
            self.wf(),
        ensures
            r == speculative_target_spec(self.current_index, self.total_tracks, self.loop_enabled),
    {
        match crate::scheduler::next_natural(self.current_index, self.total_tracks, self.loop_enabled) {
            Some(n) => if n == self.current_index {
                None
            } else {
                Some(n)
            },
            None => None,
        }
    }

    /// Consumes the current slot after a failed or timed-out preload and
    /// moves to its successor, or ends the session when there is none.
    fn advance_past_failed_slot(&mut self) -> (action: SessionAction)
        requires
            old(self).wf(),
            old(self).phase == SessionPhase::AwaitingPreload,
        ensures
            final(self).wf(),
            (*final(self), action) == failure_step(*old(self)),
    {
        match crate::scheduler::next_natural(self.current_index, self.total_tracks, self.loop_enabled) {
            Some(n) => {
                self.current_index = n;
                SessionAction::StartPreload { index: n }
            },
            None => {
                self.phase = SessionPhase::Ended;
                SessionAction::EndSession
            },
        }
    }
}

/// Rate limiting at the session level: after a skip honoured at `t1`,
/// every further request strictly inside the minimum interval finds the
/// gate closed, and `on_skip_requested` then leaves the session unchanged
/// — two requests within the interval move the index exactly once.
pub proof fn lemma_second_skip_within_interval_blocked(s: Session, t1: u64, t2: u64)
    requires
        s.wf(),
        s.skip_gate.last_fired_ms == Some(t1),
        t2 < t1 + MIN_SKIP_INTERVAL_MS,
    ensures
        !s.skip_gate.allows(t2),
{
}

/// The maximum volume, in percent.
pub const MAX_VOLUME_PERCENT: u8 = 100;

/// What one press of the volume-up or volume-down key does: one step of
/// one percent, clamped to the range from 0 to 100.
pub open spec fn adjust_volume_spec(current_percent: u8, increase: bool) -> u8 {
    if increase {
        if current_percent < MAX_VOLUME_PERCENT {
            (current_percent + 1) as u8
        } else {
            MAX_VOLUME_PERCENT
        }
    } else {
        if current_percent > 0 {
            (current_percent - 1) as u8
        } else {
            0
        }
    }
}

/// One volume key press: up or down one step, clamped to the range from 0
/// to 100 percent.
pub fn adjust_volume(current_percent: u8, increase: bool) -> (r: u8)
    requires
        current_percent <= MAX_VOLUME_PERCENT,
    ensures
        r == adjust_volume_spec(current_percent, increase),
        r <= MAX_VOLUME_PERCENT,
{
    if increase {
        if current_percent < MAX_VOLUME_PERCENT {
            current_percent + 1
        } else {
            MAX_VOLUME_PERCENT
        }
    } else {
        if current_percent > 0 {
            current_percent - 1
        } else {
            0
        }
    }
}

/// The volume the session starts with: the requested percentage, clamped
/// to at most 100.
pub fn initial_volume_percent(requested: u8) -> (r: u8)
    ensures
        r == if requested <= MAX_VOLUME_PERCENT {
            requested
        } else {
            MAX_VOLUME_PERCENT
        },
{
    if requested <= MAX_VOLUME_PERCENT {
        requested
    } else {
        MAX_VOLUME_PERCENT
    }
}

} // verus!
