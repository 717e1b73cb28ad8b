//! What the metadata collaborator's raw answers mean.
//!
//! Reading tags and probing a media stream happen outside the library; the
//! rules that turn their raw findings into the values the session shows —
//! placeholder strings when tags are missing, the duration computed from
//! frame count and sample rate — are verified here.  Both calls are
//! best-effort: every possible raw answer maps to a value, never to an
//! error.

use vstd::prelude::*;
use vstd::string::StringExecFns;

verus! {

/// The title and artist shown for a track whose tags answer `raw`: the
/// tag's values where present, fixed placeholders where a value or the
/// whole tag is missing.
pub open spec fn resolved_title_artist_spec(raw: Option<(Option<Seq<char>>, Option<Seq<char>>)>) -> (
    Seq<char>,
    Seq<char>,
) {
    match raw {
        None => ("Unknown"@, "Unknown"@),
        Some((title, artist)) => (
            match title {
                Some(t) => t,
                None => "Unknown Title"@,
            },
            match artist {
                Some(a) => a,
                None => "Unknown Artist"@,
            },
        ),
    }
}

/// Resolves a tag reader's raw answer to the `(title, artist)` pair the
/// status line shows.  `raw` is `None` when the file had no readable tag
/// at all; inside a tag, each field may be missing on its own.
pub fn resolve_title_artist(raw: Option<(Option<String>, Option<String>)>) -> (r: (String, String))
    ensures
        (r.0@, r.1@) == resolved_title_artist_spec(
            match raw {
                None => None,
                Some((ref t, ref a)) => Some(
                    (
                        match t {
                            Some(ts) => Some(ts@),
                            None => None,
                        },
                        match a {
                            Some(asv) => Some(asv@),
                            None => None,
                        },
                    ),
                ),
            },
        ),
{
    match raw {
        None => (String::from_str("Unknown"), String::from_str("Unknown")),
        Some((title, artist)) => {
            let t = match title {
                Some(t) => t,
                None => String::from_str("Unknown Title"),
            };
            let a = match artist {
                Some(a) => a,
                None => String::from_str("Unknown Artist"),
            };
            (t, a)
        },
    }
}

/// The whole-track duration in milliseconds that a probe's figures yield:
/// `frames * 1000 / rate`, saturated at the largest representable value,
/// and the zero sentinel (duration unknown) when either figure is missing
/// or the rate is zero.
pub open spec fn duration_ms_spec(n_frames: Option<u64>, sample_rate: Option<u32>) -> u64 {
    match (n_frames, sample_rate) {
        (Some(f), Some(r)) => if r == 0 {
            0
        } else {
            let ms = (f * 1000) / (r as int);
            if ms > u64::MAX {
                u64::MAX
            } else {
                ms as u64
            }
        },
        _ => 0,
    }
}

/// Computes a track's duration in milliseconds from the frame count and
/// sample rate a media probe reports, with zero as the unknown sentinel.
pub fn duration_ms_from_frames(n_frames: Option<u64>, sample_rate: Option<u32>) -> (r: u64)
    ensures
        r == duration_ms_spec(n_frames, sample_rate),
{
    match (n_frames, sample_rate) {
        (Some(f), Some(rate)) => {
            if rate == 0 {
                0
            } else {
                let wide: u128 = (f as u128) * 1000 / (rate as u128);
                if wide > u64::MAX as u128 {
                    u64::MAX
                } else {
                    wide as u64
                }
            }
        },
        _ => 0,
    }
}

} // verus!
