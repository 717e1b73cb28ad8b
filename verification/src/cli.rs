//! The player's command-line options, as plain values.
//!
//! Argument parsing itself happens outside the library; the parsed options
//! arrive here as one plain struct that the session and the renderer read.

use vstd::prelude::*;

verus! {

/// The command-line options of the player.
#[derive(Clone, PartialEq, Eq, Debug)]
pub struct Args {
    /// Audio file, directory, glob pattern, or list-file path.
    pub file: Option<String>,
    /// Plain mode: no banner or key help is printed.
    pub clean: bool,
    /// Shuffle the playlist once before the session starts.
    pub random: bool,
    /// Start the list over after its last track.
    pub is_loop: bool,
    /// Requested start volume in percent.
    pub volume: u8,
}

} // verus!
