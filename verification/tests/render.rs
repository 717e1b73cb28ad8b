//! Rendering: width-aware truncation, duration formatting, extensions, and
//! the assembled status and error lines.

use mddplayer::render::{
    dec_string, display_extension, format_duration, render_error_line, render_status_line,
    truncate_string,
};
use mddplayer::session::FailureKind;

#[test]
fn short_strings_are_returned_unchanged() {
    assert_eq!(truncate_string("hello", 10), "hello");
    assert_eq!(truncate_string("hello", 5), "hello");
}

#[test]
fn too_long_strings_get_an_ellipsis() {
    // budget 7 leaves 4 columns of content before the ellipsis
    assert_eq!(truncate_string("abcdefgh", 7), "abcd...");
}

#[test]
fn tiny_budgets_yield_the_empty_string() {
    assert_eq!(truncate_string("hello", 2), "");
    assert_eq!(truncate_string("hello", 0), "");
}

#[test]
fn truncation_counts_display_columns_not_characters() {
    // each CJK character is two columns wide: six characters make width 12
    let wide = "音乐播放器啊";
    assert_eq!(truncate_string(wide, 12), wide);
    // budget 7 leaves 4 columns: two wide characters fit
    assert_eq!(truncate_string(wide, 7), "音乐...");
    // an odd content budget cannot be filled exactly by two-column characters
    assert_eq!(truncate_string(wide, 8), "音乐...");
}

#[test]
fn durations_format_as_minutes_and_seconds() {
    assert_eq!(format_duration(61_000), "01:01");
    assert_eq!(format_duration(1_000), "00:01");
    assert_eq!(format_duration(60_000), "01:00");
    assert_eq!(format_duration(599_000), "09:59");
    assert_eq!(format_duration(3_600_000), "60:00");
}

#[test]
fn long_durations_keep_all_minute_digits() {
    // 100 minutes and 5 seconds
    assert_eq!(format_duration(6_005_000), "100:05");
}

#[test]
fn unknown_duration_shows_placeholders() {
    assert_eq!(format_duration(0), "??:??");
    // anything below one second still counts as the unknown sentinel
    assert_eq!(format_duration(999), "??:??");
}

#[test]
fn decimal_rendering_is_exact() {
    assert_eq!(dec_string(0), "0");
    assert_eq!(dec_string(7), "7");
    assert_eq!(dec_string(10), "10");
    assert_eq!(dec_string(105), "105");
    assert_eq!(dec_string(u64::MAX), "18446744073709551615");
}

#[test]
fn extension_is_the_uppercased_part_after_the_last_dot() {
    assert_eq!(display_extension("song.mp3"), "MP3");
    assert_eq!(display_extension("dir/a.b.flac"), "FLAC");
    assert_eq!(display_extension("track.Ogg"), "OGG");
}

#[test]
fn path_without_a_dot_is_shown_whole() {
    assert_eq!(display_extension("noext"), "NOEXT");
}

#[test]
fn status_line_is_assembled_and_padded_to_the_terminal_width() {
    let line = render_status_line(
        0, 3, false, false, "T", "A", "x.mp3", 61_000, 120_000, 75, 60,
    );
    let mut expected = String::from("[1/3][seq|once][MP3][T-A][01:01/02:00][75%]");
    while expected.len() < 60 {
        expected.push(' ');
    }
    assert_eq!(line, expected);
}

#[test]
fn narrow_terminal_drops_the_artist() {
    // the base line without music takes 40 columns; at width 50 only 10
    // remain, which is under the 15-column threshold: the title alone is
    // shown, truncated to 10 columns
    let line = render_status_line(
        1, 3, true, true, "A very long title indeed", "Artist", "x.wav", 0, 0, 5, 50,
    );
    assert_eq!(line.trim_end(), "[2/3][rand|loop][WAV][A very ...][??:??/??:??][5%]");
}

#[test]
fn error_line_names_the_file_and_the_kind() {
    let line = render_error_line(0, 2, FailureKind::DecodeFailed, "bad.mp3");
    assert_eq!(line, "[1/2] [error: decode failed]: bad.mp3 -> skipping");
}

#[test]
fn error_line_truncates_long_names() {
    let line = render_error_line(
        4,
        9,
        FailureKind::CannotOpen,
        "a-very-long-file-name-that-will-not-fit.mp3",
    );
    assert_eq!(
        line,
        "[5/9] [error: cannot open or read]: a-very-long-file-name-that-... -> skipping"
    );
}
