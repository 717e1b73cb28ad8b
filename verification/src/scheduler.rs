//! Track scheduling: which slot plays next.
//!
//! The scheduler is pure: it computes the next playlist index under natural
//! advancement and under user-forced skips, and it rate-limits repeated
//! requests so that key-repeat flooding moves the index at most once per
//! minimum interval.

use vstd::prelude::*;

verus! {

/// Direction of a user-forced skip.
#[derive(Clone, Copy, PartialEq, Eq, Structural, Debug)]
pub enum Direction {
    Forward,
    Backward,
}

/// Minimum spacing between two honoured forced skips, in milliseconds.
pub const MIN_SKIP_INTERVAL_MS: u64 = 250;

/// Minimum spacing between two honoured pause or mute toggles, in
/// milliseconds (key debouncing).
pub const MIN_TOGGLE_INTERVAL_MS: u64 = 200;

/// The slot that plays after `current` ends on its own: the successor while
/// one exists, the first slot again when looping, and nothing otherwise.
pub open spec fn next_natural_spec(current: usize, total: usize, loop_enabled: bool) -> Option<
    usize,
> {
    if current + 1 < total {
        Some((current + 1) as usize)
    } else if loop_enabled {
        Some(0usize)
    } else {
        None
    }
}

/// The slot a forced skip moves to, or `None` when the request is illegal
/// and must be ignored: forward past the last slot and backward past the
/// first are only allowed when looping, in which case they wrap.
pub open spec fn apply_forced_skip_spec(
    current: usize,
    total: usize,
    loop_enabled: bool,
    direction: Direction,
) -> Option<usize> {
    match direction {
        Direction::Forward => if current + 1 < total {
            Some((current + 1) as usize)
        } else if loop_enabled {
            Some(0usize)
        } else {
            None
        },
        Direction::Backward => if current > 0 {
            Some((current - 1) as usize)
        } else if loop_enabled {
            Some((total - 1) as usize)
        } else {
            None
        },
    }
}

/// Natural advancement after the track in slot `current_index` ends.
pub fn next_natural(current_index: usize, total: usize, loop_enabled: bool) -> (r: Option<usize>)
    requires
        current_index < total,
    ensures
        r == next_natural_spec(current_index, total, loop_enabled),
        r matches Some(n) ==> n < total,
{
    if current_index + 1 < total {
        Some(current_index + 1)
    } else if loop_enabled {
        Some(0)
    } else {
        None
    }
}

/// A user-forced skip from slot `current_index`; `None` means the key press
/// is ignored.
pub fn apply_forced_skip(
    current_index: usize,
    total: usize,
    loop_enabled: bool,
    direction: Direction,
) -> (r: Option<usize>)
    requires
        current_index < total,
    ensures
        r == apply_forced_skip_spec(current_index, total, loop_enabled, direction),
        r matches Some(n) ==> n < total,
{
    match direction {
        Direction::Forward => {
            if current_index + 1 < total {
                Some(current_index + 1)
            } else if loop_enabled {
                Some(0)
            } else {
                None
            }
        },
        Direction::Backward => {
            if current_index > 0 {
                Some(current_index - 1)
            } else if loop_enabled {
                Some(total - 1)
            } else {
                None
            }
        },
    }
}

/// A forced skip is deterministic in its four edge cases: forward at the
/// last slot is a no-op without looping and wraps to the first slot with it;
/// backward at the first slot is a no-op without looping and wraps to the
/// last slot with it.
pub proof fn lemma_forced_skip_edges(total: usize, loop_enabled: bool)
    requires
        total > 0,
    ensures
        !loop_enabled ==> apply_forced_skip_spec(
            (total - 1) as usize,
            total,
            false,
            Direction::Forward,
        ) is None,
        loop_enabled ==> apply_forced_skip_spec(
            (total - 1) as usize,
            total,
            true,
            Direction::Forward,
        ) == Some(0usize),
        !loop_enabled ==> apply_forced_skip_spec(0, total, false, Direction::Backward) is None,
        loop_enabled ==> apply_forced_skip_spec(0, total, true, Direction::Backward) == Some(
            (total - 1) as usize,
        ),
{
}

/// Drops events that arrive within a minimum interval of the last accepted
/// one, to absorb key-repeat flooding.
pub struct RateGate {
    /// How far apart two accepted events must at least be, in milliseconds.
    pub min_interval_ms: u64,
    /// When the last accepted event fired, if any has.
    pub last_fired_ms: Option<u64>,
}

impl RateGate {
    /// Whether an event at `now_ms` would be accepted.
    pub open spec fn allows(self, now_ms: u64) -> bool {
        match self.last_fired_ms {
            None => true,
            Some(last) => now_ms >= last && now_ms - last >= self.min_interval_ms,
        }
    }

    /// A gate that accepts its first event immediately.
    pub fn new(min_interval_ms: u64) -> (r: RateGate)
        ensures
            r.min_interval_ms == min_interval_ms,
            r.last_fired_ms is None,
            forall|t: u64| r.allows(t),
    {
        RateGate { min_interval_ms, last_fired_ms: None }
    }

    /// A gate that behaves as if an event had just been accepted at
    /// `now_ms`: the first real event must wait out a full interval.
    pub fn new_blocked(min_interval_ms: u64, now_ms: u64) -> (r: RateGate)
        ensures
            r.min_interval_ms == min_interval_ms,
            r.last_fired_ms == Some(now_ms),
    {
        RateGate { min_interval_ms, last_fired_ms: Some(now_ms) }
    }

    /// Whether an event at `now_ms` would be accepted, without recording
    /// anything.
    pub fn check(&self, now_ms: u64) -> (r: bool)
        ensures
            r == self.allows(now_ms),
    {
        match self.last_fired_ms {
            None => true,
            Some(last) => now_ms >= last && now_ms - last >= self.min_interval_ms,
        }
    }

    /// Submits an event at `now_ms` and reports whether it is accepted.
    /// Acceptance restarts the interval; rejection changes nothing.
    pub fn try_fire(&mut self, now_ms: u64) -> (accepted: bool)
        ensures
            accepted == old(self).allows(now_ms),
            accepted ==> *final(self) == (RateGate {
                last_fired_ms: Some(now_ms),
                ..*old(self)
            }),
            !accepted ==> *final(self) == *old(self),
    {
        let allowed = match self.last_fired_ms {
            None => true,
            Some(last) => now_ms >= last && now_ms - last >= self.min_interval_ms,
        };
        if allowed {
            self.last_fired_ms = Some(now_ms);
        }
        allowed
    }
}

/// Rate limiting: once an event is accepted at `t1`, every event strictly
/// inside the following minimum interval is dropped, so two requests within
/// the interval move the state at most once.
pub proof fn lemma_rate_gate_blocks_within_interval(g0: RateGate, g1: RateGate, t1: u64, t2: u64)
    requires
        g0.allows(t1),
        g1 == (RateGate { last_fired_ms: Some(t1), ..g0 }),
        t2 < t1 + g0.min_interval_ms,
    ensures
        !g1.allows(t2),
{
}

} // verus!
