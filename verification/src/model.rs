//! Plain-value snapshots of the daemon's state, as one query returns them.
//!
//! Every value here is request-scoped: built from a single response, read by
//! the renderers, and discarded. Nothing in this crate mutates daemon state;
//! mutation is only ever requested over the connection.

use vstd::prelude::*;

verus! {

/// The daemon's playback state: exactly one of three.
#[derive(Clone, Copy, PartialEq, Eq, Structural)]
pub enum PlayState {
    Stop,
    Play,
    Pause,
}

/// A span of time with seconds and sub-second nanoseconds, the daemon's
/// resolution for elapsed time, total time and the statistics durations.
#[derive(Clone, Copy, PartialEq, Eq, Structural)]
pub struct Dur {
    pub secs: u64,
    pub nanos: u32,
}

impl Dur {
    /// The nanosecond part never reaches a whole second.
    pub open spec fn wf(self) -> bool {
        self.nanos < 1_000_000_000
    }
}

/// A snapshot of the player's state at query time.
pub struct PlayerStatus {
    /// Volume, 0 to 100; the daemon reports -1 when no volume is available.
    pub volume: i8,
    pub repeat: bool,
    pub random: bool,
    pub single: bool,
    pub consume: bool,
    pub state: PlayState,
    /// Zero-based position of the current song in the queue, if any.
    pub song_pos: Option<u32>,
    /// Number of songs in the queue.
    pub queue_len: u32,
    /// Elapsed time of the current song and its total duration, if known.
    pub time: Option<(Dur, Dur)>,
}

impl PlayerStatus {
    pub open spec fn wf(self) -> bool {
        match self.time {
            Some((elapsed, total)) => elapsed.wf() && total.wf(),
            None => true,
        }
    }
}

/// One song, identified by its path-like `file` field; the metadata fields
/// may be absent.
pub struct SongInfo {
    pub file: String,
    pub artist: Option<String>,
    pub title: Option<String>,
}

/// The daemon's library statistics.
pub struct DaemonStats {
    pub artists: u32,
    pub albums: u32,
    pub songs: u32,
    pub playtime: Dur,
    pub uptime: Dur,
    pub db_update: Dur,
    pub db_playtime: Dur,
}

impl DaemonStats {
    pub open spec fn wf(self) -> bool {
        self.playtime.wf() && self.uptime.wf() && self.db_update.wf() && self.db_playtime.wf()
    }
}

/// What can go wrong while a view is built; a connection or protocol failure
/// never reaches this crate.
#[derive(Clone, Copy, PartialEq, Eq, Structural, Debug)]
pub enum ViewError {
    /// A queue view was asked for while no song is playing.
    NoCurrentSong,
    /// A statistics duration does not fit the signed range the clock
    /// formatting accepts.
    DurationOutOfRange,
}

impl ViewError {
    /// The user-facing description of this error.
    pub fn message(&self) -> (r: &'static str)
        ensures
            r@ == self.message_text(),
    {
        match self {
            ViewError::NoCurrentSong => "No playing song found",
            ViewError::DurationOutOfRange => "Source value is out of range for the target type",
        }
    }

    /// The text `message` returns for each variant.
    pub open spec fn message_text(self) -> Seq<char> {
        match self {
            ViewError::NoCurrentSong => "No playing song found"@,
            ViewError::DurationOutOfRange => "Source value is out of range for the target type"@,
        }
    }
}

} // verus!
