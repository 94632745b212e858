//! Decision core of a small desktop command bridge around the `spotdl`
//! command-line tool.
//!
//! The bridge offers three operations: download an audio track or playlist
//! to a directory, check whether `spotdl` is usable on the host, and report
//! the host's operating system and architecture. All real work is done by
//! `spotdl` running as a subprocess; this crate holds everything that can be
//! stated and proved about the bridge — which command lines are issued, how
//! a process outcome is classified, and which result or error message each
//! outcome produces. The caller spawns the processes and feeds each
//! [`process::ProcessOutcome`] back in.

pub mod download;
pub mod host;
pub mod presence;
pub mod process;
