//! Pause-aware clock behaviour: monotone while playing, frozen while
//! paused, no time lost or double-counted across transitions.

use mddplayer::clock::PlaybackClock;

#[test]
fn elapsed_starts_at_zero_and_follows_the_wall_clock() {
    let c = PlaybackClock::on_track_start(1_000);
    assert_eq!(c.elapsed(1_000), 0);
    assert_eq!(c.elapsed(2_000), 1_000);
    assert_eq!(c.elapsed(5_000), 4_000);
}

#[test]
fn elapsed_is_frozen_while_paused() {
    let mut c = PlaybackClock::on_track_start(1_000);
    c.on_pause_transition(true, 3_000);
    assert_eq!(c.elapsed(3_000), 2_000);
    assert_eq!(c.elapsed(10_000), 2_000);
    assert_eq!(c.elapsed(60_000), 2_000);
}

#[test]
fn resume_subtracts_exactly_the_paused_time() {
    let mut c = PlaybackClock::on_track_start(1_000);
    c.on_pause_transition(true, 3_000);
    c.on_pause_transition(false, 6_000);
    // elapsed is continuous across the resume...
    assert_eq!(c.elapsed(6_000), 2_000);
    // ...and from then on advances with the wall clock: 7000 ms wall time,
    // 3000 ms of it paused
    assert_eq!(c.elapsed(8_000), 4_000);
}

#[test]
fn repeated_observations_do_not_mutate() {
    let mut c = PlaybackClock::on_track_start(0);
    c.on_pause_transition(false, 100);
    c.on_pause_transition(false, 200);
    assert_eq!(c.elapsed(300), 300);
    c.on_pause_transition(true, 400);
    c.on_pause_transition(true, 500);
    c.on_pause_transition(true, 900);
    // still frozen at the first pause observation
    assert_eq!(c.elapsed(1_000), 400);
}

#[test]
fn rapid_pause_resume_in_the_same_tick_loses_nothing() {
    let mut c = PlaybackClock::on_track_start(0);
    c.on_pause_transition(true, 500);
    c.on_pause_transition(false, 500);
    assert_eq!(c.elapsed(500), 500);
    assert_eq!(c.elapsed(1_000), 1_000);
}

#[test]
fn two_pauses_accumulate() {
    let mut c = PlaybackClock::on_track_start(0);
    c.on_pause_transition(true, 1_000);
    c.on_pause_transition(false, 2_000);
    c.on_pause_transition(true, 3_000);
    c.on_pause_transition(false, 5_000);
    // 6000 ms wall time, 1000 + 2000 ms paused
    assert_eq!(c.elapsed(6_000), 3_000);
}

#[test]
fn elapsed_is_monotone_while_playing() {
    let mut c = PlaybackClock::on_track_start(0);
    c.on_pause_transition(true, 100);
    c.on_pause_transition(false, 250);
    let mut last = 0;
    for t in [250u64, 300, 400, 1_000, 2_000, 50_000] {
        let e = c.elapsed(t);
        assert!(e >= last);
        last = e;
    }
}
