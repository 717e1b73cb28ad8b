//! Pure rendering of the status line.
//!
//! Everything shown in the terminal is computed here as a string; printing
//! it is the shell's job.  Display widths come from the `unicode_width`
//! crate behind two trusted wrappers; everything built on top of them —
//! width-aware truncation, duration formatting, the fixed-width status
//! line — is verified.

use vstd::prelude::*;
use vstd::string::{StrSliceExecFns, StringExecFns};
use crate::session::FailureKind;
use crate::text::{seq_ascii_upper, string_from_chars, to_ascii_upper_string};

verus! {

/// The displayed column width of one character, as the `unicode_width`
/// crate reports it, with control characters counting as zero.  A function
/// of the character alone.
pub uninterp spec fn char_display_width(c: char) -> nat;

/// The displayed column width of a whole string, as the `unicode_width`
/// crate reports it.  Not always the sum of its characters' widths: the
/// crate gives some sequences, such as `"\r\n"` and emoji ligatures, a
/// width of their own.  A function of the characters alone.
pub uninterp spec fn str_display_width(s: Seq<char>) -> nat;

/// Relies on `unicode_width::UnicodeWidthChar::width`: the character's
/// displayed width in columns, `None` for a control character, taken here
/// as zero; the result depends on the character alone.
#[verifier::external_body]
fn char_width(c: char) -> (r: usize)
    ensures
        r as nat == char_display_width(c),
{
    unicode_width::UnicodeWidthChar::width(c).unwrap_or(0)
}

/// Relies on `unicode_width::UnicodeWidthStr::width`: the string's
/// displayed width in columns; the result depends on the characters alone.
#[verifier::external_body]
fn str_width(s: &str) -> (r: usize)
    ensures
        r as nat == str_display_width(s@),
{
    unicode_width::UnicodeWidthStr::width(s)
}

/// How many leading characters of `s` fit into `budget` columns when each
/// character takes its own display width: characters are taken in order
/// until the next one would overrun the budget.
pub open spec fn fit_len_spec(s: Seq<char>, budget: int) -> int
    decreases s.len(),
{
    if s.len() == 0 {
        0
    } else if char_display_width(s[0]) > budget {
        0
    } else {
        1 + fit_len_spec(s.drop_first(), budget - char_display_width(s[0]))
    }
}

/// What truncating `s` to `max_width` columns shows: everything when the
/// string already fits, nothing when not even an ellipsis would, and
/// otherwise the widest character prefix that leaves three columns for the
/// trailing ellipsis.
pub open spec fn truncate_spec(s: Seq<char>, max_width: int) -> Seq<char> {
    if max_width < 3 {
        Seq::empty()
    } else if str_display_width(s) <= max_width {
        s
    } else {
        s.take(fit_len_spec(s, max_width - 3)) + "..."@
    }
}

/// The number of characters of `s`, starting at `i`, that fit in `budget`
/// columns.
fn fit_prefix_len(s: &str, i: usize, budget: usize) -> (r: usize)
    requires
        i <= s@.len(),
    ensures
        i + r <= s@.len(),
        r == fit_len_spec(s@.skip(i as int), budget as int),
    decreases s@.len() - i,
{
    if i == s.unicode_len() {
        proof {
            assert(s@.skip(i as int) =~= Seq::<char>::empty());
        }
        0
    } else {
        let w = char_width(s.get_char(i));
        proof {
            assert(s@.skip(i as int)[0] == s@[i as int]);
        }
        if w > budget {
            0
        } else {
            let rest = fit_prefix_len(s, i + 1, budget - w);
            proof {
                assert(s@.skip(i as int).drop_first() =~= s@.skip(i + 1));
            }
            1 + rest
        }
    }
}

/// Truncates `s` to at most `max_width` display columns, appending an
/// ellipsis when anything was cut.  A string that already fits is returned
/// unchanged; a budget below the ellipsis' own three columns yields the
/// empty string.
pub fn truncate_string(s: &str, max_width: usize) -> (r: String)
    ensures
        r@ == truncate_spec(s@, max_width as int),
{
    if max_width < 3 {
        return String::new();
    }
    let total = str_width(s);
    if total <= max_width {
        return s.to_owned();
    }
    let k = fit_prefix_len(s, 0, max_width - 3);
    proof {
        assert(s@.skip(0) =~= s@);
    }
    let prefix = s.substring_char(0, k);
    let mut r = prefix.to_owned();
    r.append("...");
    proof {
        assert(prefix@ =~= s@.take(k as int));
    }
    r
}

/// The character for one decimal digit.
pub open spec fn digit_char(d: int) -> char {
    (d + 48) as char
}

/// The decimal numeral for `n`, most significant digit first.
pub open spec fn dec_spec(n: int) -> Seq<char>
    decreases n,
{
    if n < 10 {
        seq![digit_char(n)]
    } else {
        dec_spec(n / 10).push(digit_char(n % 10))
    }
}

/// The string slice for one decimal digit.
fn digit_str(d: u64) -> (r: &'static str)
    requires
        d < 10,
    ensures
        r@ == seq![digit_char(d as int)],
{
    match d {
        0 => {
            proof {
                reveal_strlit("0");
                assert("0"@ =~= seq![digit_char(0)]);
            }
            "0"
        },
        1 => {
            proof {
                reveal_strlit("1");
                assert("1"@ =~= seq![digit_char(1)]);
            }
            "1"
        },
        2 => {
            proof {
                reveal_strlit("2");
                assert("2"@ =~= seq![digit_char(2)]);
            }
            "2"
        },
        3 => {
            proof {
                reveal_strlit("3");
                assert("3"@ =~= seq![digit_char(3)]);
            }
            "3"
        },
        4 => {
            proof {
                reveal_strlit("4");
                assert("4"@ =~= seq![digit_char(4)]);
            }
            "4"
        },
        5 => {
            proof {
                reveal_strlit("5");
                assert("5"@ =~= seq![digit_char(5)]);
            }
            "5"
        },
        6 => {
            proof {
                reveal_strlit("6");
                assert("6"@ =~= seq![digit_char(6)]);
            }
            "6"
        },
        7 => {
            proof {
                reveal_strlit("7");
                assert("7"@ =~= seq![digit_char(7)]);
            }
            "7"
        },
        8 => {
            proof {
                reveal_strlit("8");
                assert("8"@ =~= seq![digit_char(8)]);
            }
            "8"
        },
        _ => {
            proof {
                reveal_strlit("9");
                assert("9"@ =~= seq![digit_char(9)]);
            }
            "9"
        },
    }
}

/// The decimal numeral for `n`.
pub fn dec_string(n: u64) -> (r: String)
    ensures
        r@ == dec_spec(n as int),
    decreases n,
{
    if n < 10 {
        digit_str(n).to_owned()
    } else {
        let mut s = dec_string(n / 10);
        s.append(digit_str(n % 10));
        proof {
            assert(dec_spec((n / 10) as int) + seq![digit_char((n % 10) as int)] =~= dec_spec(
                (n / 10) as int,
            ).push(digit_char((n % 10) as int)));
        }
        s
    }
}

/// The decimal numeral for `n`, left-padded with a zero to at least two
/// digits.
pub open spec fn two_digit_spec(n: int) -> Seq<char> {
    if n < 10 {
        seq!['0', digit_char(n)]
    } else {
        dec_spec(n)
    }
}

/// The decimal numeral for `n`, zero-padded to at least two digits.
fn two_digit_string(n: u64) -> (r: String)
    ensures
        r@ == two_digit_spec(n as int),
{
    if n < 10 {
        let mut s = String::from_str("0");
        s.append(digit_str(n));
        proof {
            reveal_strlit("0");
            assert("0"@ + seq![digit_char(n as int)] =~= seq!['0', digit_char(n as int)]);
        }
        s
    } else {
        dec_string(n)
    }
}

/// The `MM:SS` display of a duration given in milliseconds, or `??:??`
/// when the duration is the zero sentinel (unknown or shorter than a
/// second).
pub open spec fn format_duration_spec(total_ms: u64) -> Seq<char> {
    let secs = total_ms as int / 1000;
    if secs == 0 {
        "??:??"@
    } else {
        two_digit_spec(secs / 60) + ":"@ + two_digit_spec(secs % 60)
    }
}

/// Formats a duration in milliseconds as `MM:SS`, with `??:??` for the
/// zero sentinel.
pub fn format_duration(total_ms: u64) -> (r: String)
    ensures
        r@ == format_duration_spec(total_ms),
{
    let secs = total_ms / 1000;
    if secs == 0 {
        return String::from_str("??:??");
    }
    let mut r = two_digit_string(secs / 60);
    r.append(":");
    let tail = two_digit_string(secs % 60);
    r.append(tail.as_str());
    r
}

/// Where a path's displayed extension starts: right after the last dot,
/// or position zero when the path has no dot at all (the whole path then
/// counts as the extension, as splitting on dots leaves it whole).
pub open spec fn ext_start_spec(s: Seq<char>) -> int
    decreases s.len(),
{
    if s.len() == 0 {
        0
    } else if s.last() == '.' {
        s.len() as int
    } else {
        ext_start_spec(s.drop_last())
    }
}

/// `ext_start_spec` points right after a dot and no dot follows it.
proof fn lemma_ext_start(s: Seq<char>)
    ensures
        0 <= ext_start_spec(s) <= s.len(),
        ext_start_spec(s) > 0 ==> s[ext_start_spec(s) - 1] == '.',
        forall|j: int| ext_start_spec(s) <= j < s.len() ==> s[j] != '.',
    decreases s.len(),
{
    if s.len() == 0 {
    } else if s.last() == '.' {
    } else {
        lemma_ext_start(s.drop_last());
        assert forall|j: int| ext_start_spec(s) <= j < s.len() implies s[j] != '.' by {
            if j < s.len() - 1 {
                assert(s[j] == s.drop_last()[j]);
            }
        }
    }
}

/// Any position right after a dot with no later dot is `ext_start_spec`.
proof fn lemma_ext_start_unique(s: Seq<char>, k: int)
    requires
        0 <= k <= s.len(),
        forall|j: int| k <= j < s.len() ==> s[j] != '.',
        k > 0 ==> s[k - 1] == '.',
    ensures
        ext_start_spec(s) == k,
{
    lemma_ext_start(s);
}

/// The extension shown on the status line: the part of the path after its
/// last dot (the whole path when it has none), ASCII-uppercased.
pub open spec fn display_extension_spec(path: Seq<char>) -> Seq<char> {
    seq_ascii_upper(path.skip(ext_start_spec(path)))
}

/// The ASCII-uppercased extension of `path` for the status line.
pub fn display_extension(path: &str) -> (r: String)
    ensures
        r@ == display_extension_spec(path@),
{
    let len = path.unicode_len();
    let mut e: usize = len;
    while e > 0 && path.get_char(e - 1) != '.'
        invariant
            e <= len,
            len == path@.len(),
            forall|j: int| e <= j < len ==> path@[j] != '.',
        decreases e,
    {
        e = e - 1;
    }
    proof {
        lemma_ext_start_unique(path@, e as int);
    }
    let suffix = path.substring_char(e, len);
    proof {
        assert(suffix@ =~= path@.skip(e as int));
    }
    to_ascii_upper_string(suffix)
}

/// `n` spaces.
pub open spec fn spaces_spec(n: int) -> Seq<char> {
    Seq::new(n as nat, |i: int| ' ')
}

/// A string of `n` spaces.
fn spaces(n: usize) -> (r: String)
    ensures
        r@ == spaces_spec(n as int),
{
    let mut chars: Vec<char> = Vec::new();
    let mut i: usize = 0;
    while i < n
        invariant
            i <= n,
            chars@ == spaces_spec(i as int),
        decreases n - i,
    {
        chars.push(' ');
        proof {
            assert(chars@ =~= spaces_spec(i + 1));
        }
        i = i + 1;
    }
    string_from_chars(&chars)
}

/// The playback-mode tag on the status line: shuffle or sequential order,
/// looping or a single pass.
pub open spec fn mode_spec(is_random: bool, is_loop: bool) -> Seq<char> {
    (if is_random {
        "rand"@
    } else {
        "seq"@
    }) + "|"@ + (if is_loop {
        "loop"@
    } else {
        "once"@
    })
}

/// The status line except for padding, with `music` in the title-artist
/// field: track counter, playback mode, extension, title-artist, elapsed
/// and total time, and volume.
pub open spec fn status_base_spec(
    current_index: usize,
    total_tracks: usize,
    is_random: bool,
    is_loop: bool,
    ext: Seq<char>,
    music: Seq<char>,
    current_ms: u64,
    total_ms: u64,
    volume_percent: u8,
) -> Seq<char> {
    "["@ + dec_spec(current_index + 1) + "/"@ + dec_spec(total_tracks as int) + "]["@ + mode_spec(
        is_random,
        is_loop,
    ) + "]["@ + ext + "]["@ + music + "]["@ + format_duration_spec(current_ms) + "/"@
        + format_duration_spec(total_ms) + "]["@ + dec_spec(volume_percent as int) + "%]"@
}

/// Builds the status line except for padding.
fn status_base(
    current_index: usize,
    total_tracks: usize,
    is_random: bool,
    is_loop: bool,
    ext: &str,
    music: &str,
    current_ms: u64,
    total_ms: u64,
    volume_percent: u8,
) -> (r: String)
    requires
        current_index < total_tracks,
    ensures
        r@ == status_base_spec(
            current_index,
            total_tracks,
            is_random,
            is_loop,
            ext@,
            music@,
            current_ms,
            total_ms,
            volume_percent,
        ),
{
    let mut r = String::from_str("[");
    let counter = dec_string((current_index as u64) + 1);
    r.append(counter.as_str());
    r.append("/");
    let total = dec_string(total_tracks as u64);
    r.append(total.as_str());
    r.append("][");
    r.append(if is_random {
        "rand"
    } else {
        "seq"
    });
    r.append("|");
    r.append(if is_loop {
        "loop"
    } else {
        "once"
    });
    r.append("][");
    r.append(ext);
    r.append("][");
    r.append(music);
    r.append("][");
    let cur = format_duration(current_ms);
    r.append(cur.as_str());
    r.append("/");
    let tot = format_duration(total_ms);
    r.append(tot.as_str());
    r.append("][");
    let vol = dec_string(volume_percent as u64);
    r.append(vol.as_str());
    r.append("%]");
    r
}

/// The whole status line at a given terminal width: the base line with the
/// title-artist field filled as far as the remaining columns allow — the
/// title alone when fewer than fifteen columns remain — padded with
/// spaces toward the terminal width.
pub open spec fn status_line_spec(
    current_index: usize,
    total_tracks: usize,
    is_random: bool,
    is_loop: bool,
    title: Seq<char>,
    artist: Seq<char>,
    track_path: Seq<char>,
    current_ms: u64,
    total_ms: u64,
    volume_percent: u8,
    terminal_width: usize,
) -> Seq<char> {
    let ext = display_extension_spec(track_path);
    let probe = status_base_spec(
        current_index,
        total_tracks,
        is_random,
        is_loop,
        ext,
        Seq::empty(),
        current_ms,
        total_ms,
        volume_percent,
    );
    let budget = if terminal_width >= str_display_width(probe) {
        terminal_width - str_display_width(probe)
    } else {
        0
    };
    let music = if budget < 15 {
        truncate_spec(title, budget)
    } else {
        truncate_spec(title + "-"@ + artist, budget)
    };
    let line = status_base_spec(
        current_index,
        total_tracks,
        is_random,
        is_loop,
        ext,
        music,
        current_ms,
        total_ms,
        volume_percent,
    );
    let pad = if terminal_width >= str_display_width(line) {
        terminal_width - str_display_width(line)
    } else {
        0
    };
    line + spaces_spec(pad)
}

/// Renders the in-place status line for the current tick.
pub fn render_status_line(
    current_index: usize,
    total_tracks: usize,
    is_random: bool,
    is_loop: bool,
    title: &str,
    artist: &str,
    track_path: &str,
    current_ms: u64,
    total_ms: u64,
    volume_percent: u8,
    terminal_width: usize,
) -> (r: String)
    requires
        current_index < total_tracks,
    ensures
        r@ == status_line_spec(
            current_index,
            total_tracks,
            is_random,
            is_loop,
            title@,
            artist@,
            track_path@,
            current_ms,
            total_ms,
            volume_percent,
            terminal_width,
        ),
{
    let ext = display_extension(track_path);
    let probe = status_base(
        current_index,
        total_tracks,
        is_random,
        is_loop,
        ext.as_str(),
        "",
        current_ms,
        total_ms,
        volume_percent,
    );
    proof {
        reveal_strlit("");
        assert(""@ =~= Seq::<char>::empty());
    }
    let probe_width = str_width(probe.as_str());
    let budget = if terminal_width >= probe_width {
        terminal_width - probe_width
    } else {
        0
    };
    let music = if budget < 15 {
        truncate_string(title, budget)
    } else {
        let mut combined = title.to_owned();
        combined.append("-");
        combined.append(artist);
        truncate_string(combined.as_str(), budget)
    };
    let line = status_base(
        current_index,
        total_tracks,
        is_random,
        is_loop,
        ext.as_str(),
        music.as_str(),
        current_ms,
        total_ms,
        volume_percent,
    );
    let line_width = str_width(line.as_str());
    let pad = if terminal_width >= line_width {
        terminal_width - line_width
    } else {
        0
    };
    let mut r = line;
    let padding = spaces(pad);
    r.append(padding.as_str());
    r
}

/// The report shown once for a slot whose preload failed: the track
/// counter, the failure kind, and the truncated display name, announcing
/// the skip.
pub open spec fn error_line_spec(
    current_index: usize,
    total_tracks: usize,
    kind: FailureKind,
    display_name: Seq<char>,
) -> Seq<char> {
    "["@ + dec_spec(current_index + 1) + "/"@ + dec_spec(total_tracks as int) + "] [error: "@
        + kind.label_spec() + "]: "@ + truncate_spec(display_name, 30) + " -> skipping"@
}

/// Renders the one-line report for a slot that failed to load.
pub fn render_error_line(
    current_index: usize,
    total_tracks: usize,
    kind: FailureKind,
    display_name: &str,
) -> (r: String)
    requires
        current_index < total_tracks,
    ensures
        r@ == error_line_spec(current_index, total_tracks, kind, display_name@),
{
    let mut r = String::from_str("[");
    let counter = dec_string((current_index as u64) + 1);
    r.append(counter.as_str());
    r.append("/");
    let total = dec_string(total_tracks as u64);
    r.append(total.as_str());
    r.append("] [error: ");
    let label = kind.label();
    r.append(label.as_str());
    r.append("]: ");
    let name = truncate_string(display_name, 30);
    r.append(name.as_str());
    r.append(" -> skipping");
    r
}

} // verus!
