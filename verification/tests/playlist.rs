//! Playlist rules: list-file parsing, extension acceptance, wildcard
//! detection, and directory-scan filtering.

use mddplayer::playlist::{
    filter_audio_files, has_wildcard, is_playlist_extension, is_supported_audio_extension,
    parse_playlist, trim,
};

#[test]
fn parse_splits_trims_and_drops_empty_lines() {
    let content = "  a.mp3  \n\n\tb.flac\r\nc.ogg\n";
    assert_eq!(parse_playlist(content), vec!["a.mp3", "b.flac", "c.ogg"]);
}

#[test]
fn parse_of_whitespace_only_content_is_empty() {
    assert_eq!(parse_playlist(""), Vec::<String>::new());
    assert_eq!(parse_playlist("\n\n  \n\t\n"), Vec::<String>::new());
}

#[test]
fn parse_keeps_inner_spaces_and_order() {
    let content = "My Song.mp3\nAnother Track.wav";
    assert_eq!(parse_playlist(content), vec!["My Song.mp3", "Another Track.wav"]);
}

#[test]
fn parse_without_trailing_newline() {
    assert_eq!(parse_playlist("only.m4a"), vec!["only.m4a"]);
}

#[test]
fn trim_removes_unicode_whitespace() {
    assert_eq!(trim("  x  "), "x");
    assert_eq!(trim("\u{3000}wide\u{00A0}"), "wide");
    assert_eq!(trim(""), "");
    assert_eq!(trim(" \t "), "");
}

#[test]
fn supported_extensions_are_accepted_case_insensitively() {
    for ext in ["mp3", "ogg", "flac", "aac", "m4a", "wav"] {
        assert!(is_supported_audio_extension(ext), "{ext}");
        assert!(is_supported_audio_extension(&ext.to_uppercase()), "{ext}");
    }
    assert!(is_supported_audio_extension("Mp3"));
}

#[test]
fn other_extensions_are_rejected() {
    for ext in ["txt", "doc", "mp4", "", "mp", "mp33", "wma"] {
        assert!(!is_supported_audio_extension(ext), "{ext}");
    }
}

#[test]
fn playlist_extension_is_txt_in_any_case() {
    assert!(is_playlist_extension("txt"));
    assert!(is_playlist_extension("TXT"));
    assert!(is_playlist_extension("Txt"));
    assert!(!is_playlist_extension("text"));
    assert!(!is_playlist_extension("mp3"));
}

#[test]
fn wildcards_are_detected() {
    assert!(has_wildcard("songs/*.mp3"));
    assert!(has_wildcard("*"));
    assert!(!has_wildcard("songs/one.mp3"));
    assert!(!has_wildcard(""));
}

#[test]
fn directory_scan_keeps_only_supported_files_in_order() {
    let entries = vec![
        ("a.mp3".to_string(), "mp3".to_string()),
        ("notes.txt".to_string(), "txt".to_string()),
        ("b.FLAC".to_string(), "FLAC".to_string()),
        ("README".to_string(), String::new()),
        ("c.wav".to_string(), "wav".to_string()),
    ];
    assert_eq!(filter_audio_files(entries), vec!["a.mp3", "b.FLAC", "c.wav"]);
}

#[test]
fn empty_scan_yields_an_empty_playlist() {
    assert_eq!(filter_audio_files(Vec::new()), Vec::<String>::new());
}
