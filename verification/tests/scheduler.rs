//! Scheduler rules: natural advancement, forced-skip edges, the rate gate,
//! and volume stepping.

use mddplayer::scheduler::{apply_forced_skip, next_natural, Direction, RateGate};
use mddplayer::session::{adjust_volume, initial_volume_percent};

#[test]
fn natural_advance_moves_to_the_successor() {
    assert_eq!(next_natural(0, 3, false), Some(1));
    assert_eq!(next_natural(1, 3, false), Some(2));
}

#[test]
fn natural_advance_at_the_end_wraps_only_when_looping() {
    assert_eq!(next_natural(2, 3, false), None);
    assert_eq!(next_natural(2, 3, true), Some(0));
    assert_eq!(next_natural(0, 1, false), None);
    assert_eq!(next_natural(0, 1, true), Some(0));
}

#[test]
fn forward_skip_at_last_index_without_loop_is_a_no_op() {
    assert_eq!(apply_forced_skip(2, 3, false, Direction::Forward), None);
}

#[test]
fn forward_skip_at_last_index_with_loop_wraps_to_zero() {
    assert_eq!(apply_forced_skip(2, 3, true, Direction::Forward), Some(0));
}

#[test]
fn backward_skip_at_zero_without_loop_is_a_no_op() {
    assert_eq!(apply_forced_skip(0, 3, false, Direction::Backward), None);
}

#[test]
fn backward_skip_at_zero_with_loop_wraps_to_last() {
    assert_eq!(apply_forced_skip(0, 3, true, Direction::Backward), Some(2));
}

#[test]
fn skips_inside_the_list_move_one_step() {
    assert_eq!(apply_forced_skip(1, 3, false, Direction::Forward), Some(2));
    assert_eq!(apply_forced_skip(1, 3, false, Direction::Backward), Some(0));
}

#[test]
fn rate_gate_accepts_first_event_at_once() {
    let mut g = RateGate::new(250);
    assert!(g.try_fire(0));
}

#[test]
fn rate_gate_drops_events_inside_the_interval() {
    let mut g = RateGate::new(250);
    assert!(g.try_fire(1_000));
    assert!(!g.try_fire(1_100));
    assert!(!g.try_fire(1_249));
    assert!(g.try_fire(1_250));
}

#[test]
fn rate_gate_dropped_event_does_not_postpone_the_window() {
    let mut g = RateGate::new(250);
    assert!(g.try_fire(1_000));
    assert!(!g.try_fire(1_200));
    // the window still counts from the accepted event at 1000
    assert!(g.try_fire(1_260));
}

#[test]
fn blocked_rate_gate_waits_out_a_full_interval() {
    let mut g = RateGate::new_blocked(1_000, 5_000);
    assert!(!g.try_fire(5_500));
    assert!(g.try_fire(6_000));
}

#[test]
fn volume_steps_are_clamped() {
    assert_eq!(adjust_volume(50, true), 51);
    assert_eq!(adjust_volume(50, false), 49);
    assert_eq!(adjust_volume(100, true), 100);
    assert_eq!(adjust_volume(0, false), 0);
    assert_eq!(adjust_volume(99, true), 100);
    assert_eq!(adjust_volume(1, false), 0);
}

#[test]
fn initial_volume_is_clamped_to_one_hundred() {
    assert_eq!(initial_volume_percent(75), 75);
    assert_eq!(initial_volume_percent(100), 100);
    assert_eq!(initial_volume_percent(130), 100);
    assert_eq!(initial_volume_percent(0), 0);
}
