//! Playlist rules: which files the player accepts, how an input string is
//! classified, and how a line-delimited list file is parsed.
//!
//! Opening files, scanning directories and expanding glob patterns are the
//! playlist-resolution collaborator's job; the rules that decide what those
//! results mean — the accepted extensions, the wildcard test, and the
//! parsing of a list file's contents — live here, verified.

use vstd::prelude::*;
use crate::text::{seq_ascii_lower, str_eq_ignore_ascii_case};

verus! {

/// Whether `c` has the Unicode `White_Space` property: the set of
/// characters that trimming a line removes.
pub open spec fn is_whitespace_char(c: char) -> bool {
    ||| c == '\u{09}'
    ||| c == '\u{0A}'
    ||| c == '\u{0B}'
    ||| c == '\u{0C}'
    ||| c == '\u{0D}'
    ||| c == ' '
    ||| c == '\u{85}'
    ||| c == '\u{A0}'
    ||| c == '\u{1680}'
    ||| ('\u{2000}' <= c && c <= '\u{200A}')
    ||| c == '\u{2028}'
    ||| c == '\u{2029}'
    ||| c == '\u{202F}'
    ||| c == '\u{205F}'
    ||| c == '\u{3000}'
}

/// Whether `c` is whitespace in the sense of [`is_whitespace_char`].
pub fn is_whitespace(c: char) -> (r: bool)
    ensures
        r == is_whitespace_char(c),
{
    c == '\u{09}' || c == '\u{0A}' || c == '\u{0B}' || c == '\u{0C}' || c == '\u{0D}' || c == ' '
        || c == '\u{85}' || c == '\u{A0}' || c == '\u{1680}' || ('\u{2000}' <= c && c
        <= '\u{200A}') || c == '\u{2028}' || c == '\u{2029}' || c == '\u{202F}' || c == '\u{205F}'
        || c == '\u{3000}'
}

/// The position of the first line break in `s`, or `s.len()` when there is
/// none.
pub open spec fn first_newline(s: Seq<char>) -> int
    decreases s.len(),
{
    if s.len() == 0 {
        0
    } else if s[0] == '\n' {
        0
    } else {
        1 + first_newline(s.drop_first())
    }
}

/// `first_newline` is the least position holding a line break, and within
/// bounds.
pub proof fn lemma_first_newline(s: Seq<char>)
    ensures
        0 <= first_newline(s) <= s.len(),
        first_newline(s) < s.len() ==> s[first_newline(s)] == '\n',
        forall|j: int| 0 <= j < first_newline(s) ==> s[j] != '\n',
    decreases s.len(),
{
    if s.len() == 0 {
    } else if s[0] == '\n' {
    } else {
        lemma_first_newline(s.drop_first());
        assert forall|j: int| 0 <= j < first_newline(s) implies s[j] != '\n' by {
            if j > 0 {
                assert(s[j] == s.drop_first()[j - 1]);
            }
        }
    }
}

/// Any position that is a line break with none before it is
/// `first_newline`.
pub proof fn lemma_first_newline_unique(s: Seq<char>, k: int)
    requires
        0 <= k <= s.len(),
        forall|j: int| 0 <= j < k ==> s[j] != '\n',
        k < s.len() ==> s[k] == '\n',
    ensures
        first_newline(s) == k,
{
    lemma_first_newline(s);
}

/// `s` without leading whitespace.
pub open spec fn trim_start_spec(s: Seq<char>) -> Seq<char>
    decreases s.len(),
{
    if s.len() > 0 && is_whitespace_char(s[0]) {
        trim_start_spec(s.drop_first())
    } else {
        s
    }
}

/// `s` without trailing whitespace.
pub open spec fn trim_end_spec(s: Seq<char>) -> Seq<char>
    decreases s.len(),
{
    if s.len() > 0 && is_whitespace_char(s.last()) {
        trim_end_spec(s.drop_last())
    } else {
        s
    }
}

/// `s` without leading and trailing whitespace.
pub open spec fn trim_spec(s: Seq<char>) -> Seq<char> {
    trim_end_spec(trim_start_spec(s))
}

/// Dropping exactly the leading whitespace is what `trim_start_spec`
/// computes.
proof fn lemma_trim_start_at(s: Seq<char>, a: int)
    requires
        0 <= a <= s.len(),
        forall|j: int| 0 <= j < a ==> is_whitespace_char(s[j]),
        a < s.len() ==> !is_whitespace_char(s[a]),
    ensures
        trim_start_spec(s) == s.skip(a),
    decreases a,
{
    if a == 0 {
        assert(s.skip(0) =~= s);
    } else {
        lemma_trim_start_at(s.drop_first(), a - 1);
        assert(s.drop_first().skip(a - 1) =~= s.skip(a));
    }
}

/// Keeping everything up to the last non-whitespace character is what
/// `trim_end_spec` computes.
proof fn lemma_trim_end_at(s: Seq<char>, b: int)
    requires
        0 <= b <= s.len(),
        forall|j: int| b <= j < s.len() ==> is_whitespace_char(s[j]),
        b > 0 ==> !is_whitespace_char(s[b - 1]),
    ensures
        trim_end_spec(s) == s.take(b),
    decreases s.len(),
{
    if b == s.len() {
        assert(s.take(b) =~= s);
    } else {
        assert(is_whitespace_char(s.last()));
        lemma_trim_end_at(s.drop_last(), b);
        assert(s.drop_last().take(b) =~= s.take(b));
    }
}

/// The slice without leading and trailing whitespace.
pub fn trim(s: &str) -> (r: &str)
    ensures
        r@ == trim_spec(s@),
{
    let len = s.unicode_len();
    let mut a: usize = 0;
    while a < len && is_whitespace(s.get_char(a))
        invariant
            a <= len,
            len == s@.len(),
            forall|j: int| 0 <= j < a ==> is_whitespace_char(s@[j]),
        decreases len - a,
    {
        a = a + 1;
    }
    let mut b: usize = len;
    while b > a && is_whitespace(s.get_char(b - 1))
        invariant
            a <= b <= len,
            len == s@.len(),
            forall|j: int| b <= j < len ==> is_whitespace_char(s@[j]),
        decreases b,
    {
        b = b - 1;
    }
    proof {
        lemma_trim_start_at(s@, a as int);
        let t = s@.skip(a as int);
        lemma_trim_end_at(t, b - a);
        assert(t.take(b - a) =~= s@.subrange(a as int, b as int));
    }
    s.substring_char(a, b)
}

/// The position of the first line break, or the length when there is none.
pub fn find_first_newline(s: &str) -> (r: usize)
    ensures
        r == first_newline(s@),
        r <= s@.len(),
{
    let len = s.unicode_len();
    let mut i: usize = 0;
    while i < len && s.get_char(i) != '\n'
        invariant
            i <= len,
            len == s@.len(),
            forall|j: int| 0 <= j < i ==> s@[j] != '\n',
        decreases len - i,
    {
        i = i + 1;
    }
    proof {
        lemma_first_newline_unique(s@, i as int);
    }
    i
}

/// The entries a line-delimited list file yields: its lines in order, each
/// trimmed of surrounding whitespace, with empty lines left out.
pub open spec fn playlist_entries_spec(s: Seq<char>) -> Seq<Seq<char>>
    decreases s.len(),
    via playlist_entries_spec_dec
{
    if s.len() == 0 {
        Seq::empty()
    } else {
        let n = first_newline(s);
        let line = trim_spec(s.take(n));
        let head: Seq<Seq<char>> = if line.len() > 0 {
            seq![line]
        } else {
            Seq::empty()
        };
        if n == s.len() {
            head
        } else {
            head + playlist_entries_spec(s.skip(n + 1))
        }
    }
}

#[via_fn]
proof fn playlist_entries_spec_dec(s: Seq<char>) {
    lemma_first_newline(s);
}

/// Parses the contents of a list file: one path per line, surrounding
/// whitespace removed, empty lines skipped.  Whether the result may be
/// empty is for the caller to decide.
pub fn parse_playlist(content: &str) -> (r: Vec<String>)
    ensures
        r.deep_view() == playlist_entries_spec(content@),
    decreases content@.len(),
{
    let len = content.unicode_len();
    let mut out: Vec<String> = Vec::new();
    if len == 0 {
        proof {
            assert(out.deep_view() =~= playlist_entries_spec(content@));
        }
        return out;
    }
    let n = find_first_newline(content);
    proof {
        lemma_first_newline(content@);
    }
    let line = content.substring_char(0, n);
    proof {
        assert(line@ =~= content@.take(n as int));
    }
    let trimmed = trim(line);
    if trimmed.unicode_len() > 0 {
        out.push(trimmed.to_owned());
    }
    if n < len {
        let rest = content.substring_char(n + 1, len);
        proof {
            assert(rest@ =~= content@.skip(n + 1));
        }
        let mut tail = parse_playlist(rest);
        let ghost head_entries = out.deep_view();
        out.append(&mut tail);
        proof {
            assert(out.deep_view() =~= head_entries + playlist_entries_spec(content@.skip(n + 1)));
        }
    }
    proof {
        assert(out.deep_view() =~= playlist_entries_spec(content@));
    }
    out
}

/// Whether the input names more than one file through a shell-style
/// wildcard.
pub fn has_wildcard(input: &str) -> (r: bool)
    ensures
        r == input@.contains('*'),
{
    let len = input.unicode_len();
    let mut i: usize = 0;
    while i < len
        invariant
            i <= len,
            len == input@.len(),
            forall|j: int| 0 <= j < i ==> input@[j] != '*',
        decreases len - i,
    {
        if input.get_char(i) == '*' {
            proof {
                assert(input@[i as int] == '*');
            }
            return true;
        }
        i = i + 1;
    }
    false
}

/// The audio file extensions the player accepts, compared without regard
/// to ASCII case.
pub open spec fn supported_audio_extension_spec(ext: Seq<char>) -> bool {
    let l = seq_ascii_lower(ext);
    ||| l == "mp3"@
    ||| l == "ogg"@
    ||| l == "flac"@
    ||| l == "aac"@
    ||| l == "m4a"@
    ||| l == "wav"@
}

/// Whether a file with this extension is accepted as an audio track.
pub fn is_supported_audio_extension(ext: &str) -> (r: bool)
    ensures
        r == supported_audio_extension_spec(ext@),
{
    proof {
        reveal_strlit("mp3");
        reveal_strlit("ogg");
        reveal_strlit("flac");
        reveal_strlit("aac");
        reveal_strlit("m4a");
        reveal_strlit("wav");
        assert(seq_ascii_lower("mp3"@) =~= "mp3"@);
        assert(seq_ascii_lower("ogg"@) =~= "ogg"@);
        assert(seq_ascii_lower("flac"@) =~= "flac"@);
        assert(seq_ascii_lower("aac"@) =~= "aac"@);
        assert(seq_ascii_lower("m4a"@) =~= "m4a"@);
        assert(seq_ascii_lower("wav"@) =~= "wav"@);
    }
    str_eq_ignore_ascii_case(ext, "mp3") || str_eq_ignore_ascii_case(ext, "ogg")
        || str_eq_ignore_ascii_case(ext, "flac") || str_eq_ignore_ascii_case(ext, "aac")
        || str_eq_ignore_ascii_case(ext, "m4a") || str_eq_ignore_ascii_case(ext, "wav")
}

/// The extension that marks a line-delimited list file, compared without
/// regard to ASCII case.
pub open spec fn playlist_extension_spec(ext: Seq<char>) -> bool {
    seq_ascii_lower(ext) == "txt"@
}

/// Whether a file with this extension is read as a list of paths rather
/// than played.
pub fn is_playlist_extension(ext: &str) -> (r: bool)
    ensures
        r == playlist_extension_spec(ext@),
{
    proof {
        reveal_strlit("txt");
        assert(seq_ascii_lower("txt"@) =~= "txt"@);
    }
    str_eq_ignore_ascii_case(ext, "txt")
}

/// Keeps, in order, the paths of the entries whose extension is an
/// accepted audio extension.  Each entry is a path together with its
/// extension (empty when the file has none).
pub fn filter_audio_files(entries: Vec<(String, String)>) -> (r: Vec<String>)
    ensures
        r.deep_view() == entries@.filter(
            |e: (String, String)| supported_audio_extension_spec(e.1@),
        ).map_values(|e: (String, String)| e.0@),
{
    let ghost pred = |e: (String, String)| supported_audio_extension_spec(e.1@);
    let mut r: Vec<String> = Vec::new();
    let mut i: usize = 0;
    proof {
        assert(entries@.take(0).filter(pred) =~= Seq::<(String, String)>::empty());
        assert(r.deep_view() =~= entries@.take(0).filter(pred).map_values(
            |e: (String, String)| e.0@,
        ));
    }
    while i < entries.len()
        invariant
            i <= entries@.len(),
            pred == (|e: (String, String)| supported_audio_extension_spec(e.1@)),
            r.deep_view() == entries@.take(i as int).filter(pred).map_values(
                |e: (String, String)| e.0@,
            ),
        decreases entries@.len() - i,
    {
        let ghost prefix = entries@.take(i as int);
        proof {
            Seq::lemma_filter_push(prefix, entries@[i as int], pred);
            assert(entries@.take(i + 1) =~= prefix.push(entries@[i as int]));
        }
        let entry = &entries[i];
        let ghost e = entries@[i as int];
        let ghost views = |e2: (String, String)| e2.0@;
        if is_supported_audio_extension(entry.1.as_str()) {
            r.push(entry.0.clone());
            proof {
                assert(pred(e));
                assert(entries@.take(i + 1).filter(pred) =~= prefix.filter(pred).push(e));
                assert(r.deep_view() =~= prefix.filter(pred).map_values(views).push(e.0@));
                assert(prefix.filter(pred).push(e).map_values(views) =~= prefix.filter(
                    pred,
                ).map_values(views).push(e.0@));
                assert(r.deep_view() =~= entries@.take(i + 1).filter(pred).map_values(
                    |e2: (String, String)| e2.0@,
                ));
                assert(r.deep_view() =~= entries@.take(i + 1).filter(pred).map_values(
                    |e: (String, String)| e.0@,
                ));
            }
        } else {
            proof {
                assert(!pred(e));
                assert(entries@.take(i + 1).filter(pred) =~= prefix.filter(pred));
                assert(r.deep_view() =~= entries@.take(i + 1).filter(pred).map_values(
                    |e: (String, String)| e.0@,
                ));
            }
        }
        i = i + 1;
    }
    proof {
        assert(entries@.take(i as int) =~= entries@);
    }
    r
}

} // verus!
