//! The queue views: the annotated listing and the next-track lookup.
//!
//! Both need a current song to anchor on; without one they fail with the
//! user-facing error, never silently.

use vstd::prelude::*;
use crate::model::{SongInfo, ViewError};

verus! {

/// One line of the queue listing: the entry at the playing position gets the
/// marker, every other entry gets equally wide leading whitespace.
pub open spec fn queue_line_text(file: Seq<char>, idx: int, pos: u32) -> Seq<char> {
    (if idx == pos as int {
        "Now playing: "@
    } else {
        "             "@
    }) + file
}

/// The queue listing: one line per song, in queue order, the current song
/// marked. It fails exactly when no song is playing.
pub fn queue_lines(queue: &Vec<SongInfo>, now_position: Option<u32>) -> (r: Result<
    Vec<String>,
    ViewError,
>)
    ensures
        match r {
            Ok(v) => now_position is Some && v@.len() == queue@.len() && forall|i: int|
                0 <= i < v@.len() ==> v@[i]@ == queue_line_text(
                    queue@[i].file@,
                    i,
                    now_position->Some_0,
                ),
            Err(e) => now_position is None && e == ViewError::NoCurrentSong,
        },
{
    let pos: u32 = match now_position {
        Some(p) => p,
        None => {
            return Err(ViewError::NoCurrentSong);
        },
    };
    let mut v: Vec<String> = Vec::new();
    let mut i: usize = 0;
    while i < queue.len()
        invariant
            i <= queue.len(),
            v@.len() == i,
            forall|j: int| 0 <= j < i ==> v@[j]@ == queue_line_text(queue@[j].file@, j, pos),
        decreases queue.len() - i,
    {
        let mut line: String = if i == pos as usize {
            "Now playing: ".to_owned()
        } else {
            "             ".to_owned()
        };
        line.append(queue[i].file.as_str());
        assert(line@ == queue_line_text(queue@[i as int].file@, i as int, pos));
        v.push(line);
        i = i + 1;
    }
    Ok(v)
}

/// What the next-track view prints: the path of the song after the playing
/// one, or the fixed message when the queue ends there.
pub open spec fn next_track_text(queue: Seq<SongInfo>, pos: u32) -> Seq<char> {
    if pos as int + 1 < queue.len() {
        queue[pos as int + 1].file@
    } else {
        "No songs found"@
    }
}

/// The next-track view. It fails exactly when no song is playing; a missing
/// next track is a normal outcome, reported in the text itself.
pub fn next_track_line(queue: &Vec<SongInfo>, now_position: Option<u32>) -> (r: Result<
    String,
    ViewError,
>)
    ensures
        match r {
            Ok(s) => now_position is Some && s@ == next_track_text(
                queue@,
                now_position->Some_0,
            ),
            Err(e) => now_position is None && e == ViewError::NoCurrentSong,
        },
{
    let pos: u32 = match now_position {
        Some(p) => p,
        None => {
            return Err(ViewError::NoCurrentSong);
        },
    };
    let next: u64 = pos as u64 + 1;
    if next < queue.len() as u64 {
        Ok(queue[next as usize].file.clone())
    } else {
        Ok("No songs found".to_owned())
    }
}

} // verus!
