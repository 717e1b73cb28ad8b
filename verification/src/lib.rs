//! Core engine of a sequential terminal audio player.
//!
//! The crate holds the verified heart of the player: the pause-aware playback
//! clock, the track scheduler with its skip rules and rate limiting, the
//! session state machine that reconciles preload results with user-forced
//! skips, the playlist shuffling and parsing rules, and the pure rendering of
//! the status line.  Audio output, the terminal, and the file system are
//! collaborators that a thin unverified shell drives with values computed
//! here.

pub mod clock;
pub mod cli;
pub mod metadata;
pub mod playlist;
pub mod render;
pub mod scheduler;
pub mod session;
pub mod shuffle;
pub mod text;
