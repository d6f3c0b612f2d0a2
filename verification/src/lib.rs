//! A library for a command-line client of a music player daemon.
//!
//! The daemon itself, the network protocol and the terminal are outside
//! collaborators; this crate holds the part worth stating exactly: how a
//! status snapshot, the daemon's statistics, the play queue and the library
//! listing are turned into the text shown to the user, and which library
//! entries an `add` request selects.

pub mod chunk;
pub mod laws;
pub mod library;
pub mod lines;
pub mod model;
pub mod numfmt;
pub mod queue;
pub mod stats;
pub mod status;
