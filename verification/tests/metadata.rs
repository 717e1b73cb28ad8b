//! Metadata resolution: placeholder fallbacks and duration arithmetic.

use mddplayer::metadata::{duration_ms_from_frames, resolve_title_artist};

#[test]
fn present_tags_are_passed_through() {
    let (t, a) = resolve_title_artist(Some((
        Some("Song".to_string()),
        Some("Band".to_string()),
    )));
    assert_eq!(t, "Song");
    assert_eq!(a, "Band");
}

#[test]
fn missing_fields_fall_back_to_placeholders() {
    let (t, a) = resolve_title_artist(Some((None, Some("Band".to_string()))));
    assert_eq!(t, "Unknown Title");
    assert_eq!(a, "Band");

    let (t, a) = resolve_title_artist(Some((Some("Song".to_string()), None)));
    assert_eq!(t, "Song");
    assert_eq!(a, "Unknown Artist");
}

#[test]
fn missing_tag_falls_back_entirely() {
    let (t, a) = resolve_title_artist(None);
    assert_eq!(t, "Unknown");
    assert_eq!(a, "Unknown");
}

#[test]
fn duration_is_frames_over_rate() {
    // ten seconds at CD sample rate
    assert_eq!(duration_ms_from_frames(Some(441_000), Some(44_100)), 10_000);
    // three minutes at 48 kHz
    assert_eq!(duration_ms_from_frames(Some(8_640_000), Some(48_000)), 180_000);
    // sub-second remainder is kept in milliseconds
    assert_eq!(duration_ms_from_frames(Some(22_050), Some(44_100)), 500);
}

#[test]
fn missing_probe_figures_give_the_zero_sentinel() {
    assert_eq!(duration_ms_from_frames(None, Some(44_100)), 0);
    assert_eq!(duration_ms_from_frames(Some(441_000), None), 0);
    assert_eq!(duration_ms_from_frames(None, None), 0);
    assert_eq!(duration_ms_from_frames(Some(441_000), Some(0)), 0);
}

#[test]
fn absurd_durations_saturate() {
    assert_eq!(duration_ms_from_frames(Some(u64::MAX), Some(1)), u64::MAX);
}
