//! The laws of the views, stated and proved once over every input.

use vstd::prelude::*;
use crate::chunk::{flat, Chunk};
use crate::library::file_matches;
use crate::lines::{
    lemma_bool_text_line_free, lemma_dec_text_line_free, lemma_int_text_line_free,
    lemma_line_free_concat, lemma_newline_count_concat, lemma_one_line, line_free, newline_count,
};
use crate::model::{Dur, PlayState, PlayerStatus, SongInfo};
use crate::numfmt::{bool_text, dec_text, int_text};
use crate::status::{
    bracket_text, duration_debug_text, field_text, now_line_text, opt_text, position_text,
    shown_pos, state_tag, status_text, time_pair_text, title_text, toggles_text,
};

verus! {

/// One toggle field stays on one line when its value does.
proof fn lemma_field_line_free(label: Seq<char>, value: Seq<char>)
    requires
        line_free(label),
        line_free(value),
    ensures
        line_free(field_text(label, value)),
{
    reveal_strlit("    ");
    lemma_line_free_concat(label, value);
    lemma_line_free_concat(label + value, "    "@);
}

/// The toggle-fields line holds exactly one newline, at its end.
proof fn lemma_toggles_one_line(st: PlayerStatus)
    ensures
        newline_count(toggles_text(st)) == 1,
        toggles_text(st).len() > 0,
        toggles_text(st).last() == '\n',
{
    reveal_strlit("Volume: ");
    reveal_strlit("Repeat: ");
    reveal_strlit("Random: ");
    reveal_strlit("Single: ");
    reveal_strlit("Consume: ");
    lemma_int_text_line_free(st.volume as int);
    lemma_bool_text_line_free(st.repeat);
    lemma_bool_text_line_free(st.random);
    lemma_bool_text_line_free(st.single);
    lemma_bool_text_line_free(st.consume);
    let f1 = field_text("Volume: "@, int_text(st.volume as int));
    let f2 = field_text("Repeat: "@, bool_text(st.repeat));
    let f3 = field_text("Random: "@, bool_text(st.random));
    let f4 = field_text("Single: "@, bool_text(st.single));
    let f5 = field_text("Consume: "@, bool_text(st.consume));
    lemma_field_line_free("Volume: "@, int_text(st.volume as int));
    lemma_field_line_free("Repeat: "@, bool_text(st.repeat));
    lemma_field_line_free("Random: "@, bool_text(st.random));
    lemma_field_line_free("Single: "@, bool_text(st.single));
    lemma_field_line_free("Consume: "@, bool_text(st.consume));
    lemma_line_free_concat(f1, f2);
    lemma_line_free_concat(f1 + f2, f3);
    lemma_line_free_concat(f1 + f2 + f3, f4);
    lemma_line_free_concat(f1 + f2 + f3 + f4, f5);
    lemma_one_line(f1 + f2 + f3 + f4 + f5, toggles_text(st));
}

/// The title line holds exactly one newline, at its end, when the song
/// metadata holds none.
proof fn lemma_title_one_line(song: SongInfo)
    requires
        line_free(opt_text(song.artist)),
        line_free(opt_text(song.title)),
    ensures
        newline_count(title_text(song)) == 1,
        title_text(song).len() > 0,
        title_text(song).last() == '\n',
{
    reveal_strlit(" - ");
    lemma_line_free_concat(opt_text(song.artist), " - "@);
    lemma_line_free_concat(opt_text(song.artist) + " - "@, opt_text(song.title));
    lemma_one_line(opt_text(song.artist) + " - "@ + opt_text(song.title), title_text(song));
}

/// Whether both span texts of a time pair stay on one line.
pub open spec fn time_pair_free(time: Option<(Dur, Dur)>) -> bool {
    let (e, t) = match time {
        Some(pair) => pair,
        None => (Dur { secs: 0, nanos: 0 }, Dur { secs: 0, nanos: 0 }),
    };
    line_free(duration_debug_text(e.secs as int, e.nanos as int)) && line_free(
        duration_debug_text(t.secs as int, t.nanos as int),
    )
}

/// A time pair whose two span texts hold no newline renders on one line.
proof fn lemma_time_pair_line_free(time: Option<(Dur, Dur)>)
    requires
        time_pair_free(time),
    ensures
        line_free(time_pair_text(time)),
{
    reveal_strlit("/");
    let (e, t) = match time {
        Some(pair) => pair,
        None => (Dur { secs: 0, nanos: 0 }, Dur { secs: 0, nanos: 0 }),
    };
    let etext = duration_debug_text(e.secs as int, e.nanos as int);
    let ttext = duration_debug_text(t.secs as int, t.nanos as int);
    lemma_line_free_concat(etext, "/"@);
    lemma_line_free_concat(etext + "/"@, ttext);
}

/// The state/position/time line holds exactly one newline, at its end, when
/// the time texts hold none.
proof fn lemma_now_line_one_line(st: PlayerStatus)
    requires
        time_pair_free(st.time),
    ensures
        newline_count(now_line_text(st)) == 1,
        now_line_text(st).len() > 0,
        now_line_text(st).last() == '\n',
{
    lemma_time_pair_line_free(st.time);
    reveal_strlit("[");
    reveal_strlit("]");
    reveal_strlit("    ");
    reveal_strlit("playing");
    reveal_strlit("paused");
    reveal_strlit("#");
    reveal_strlit("/");
    assert(line_free(state_tag(st.state))) by {
        match st.state {
            PlayState::Play => {},
            PlayState::Pause => {},
            PlayState::Stop => {},
        }
    }
    lemma_line_free_concat("["@, state_tag(st.state));
    lemma_line_free_concat("["@ + state_tag(st.state), "]"@);
    lemma_line_free_concat("["@ + state_tag(st.state) + "]"@, "    "@);
    lemma_dec_text_line_free(shown_pos(st.song_pos));
    lemma_dec_text_line_free(st.queue_len as nat);
    lemma_line_free_concat("#"@, dec_text(shown_pos(st.song_pos)));
    let p2 = "#"@ + dec_text(shown_pos(st.song_pos));
    lemma_line_free_concat(p2, "/"@);
    lemma_line_free_concat(p2 + "/"@, dec_text(st.queue_len as nat));
    lemma_line_free_concat(p2 + "/"@ + dec_text(st.queue_len as nat), "    "@);
    lemma_line_free_concat(bracket_text(st.state), position_text(st.song_pos, st.queue_len));
    lemma_line_free_concat(
        bracket_text(st.state) + position_text(st.song_pos, st.queue_len),
        time_pair_text(st.time),
    );
    lemma_one_line(
        bracket_text(st.state) + position_text(st.song_pos, st.queue_len) + time_pair_text(
            st.time,
        ),
        now_line_text(st),
    );
}

/// A stopped player's status view is one line and nothing else: the whole
/// text is the toggle-fields line, closed by its only newline.
pub proof fn lemma_stopped_status_one_line(st: PlayerStatus, song: SongInfo)
    requires
        st.state == PlayState::Stop,
    ensures
        status_text(st, song) == toggles_text(st),
        newline_count(status_text(st, song)) == 1,
        status_text(st, song).len() > 0,
        status_text(st, song).last() == '\n',
{
    lemma_toggles_one_line(st);
}

/// A playing or paused player's status view is exactly three lines in fixed
/// order — the title line, then the state/position/time line, then the
/// toggle-fields line — as long as the song metadata and the rendered time
/// texts hold no newline of their own.
pub proof fn lemma_playing_status_three_lines(st: PlayerStatus, song: SongInfo)
    requires
        st.state == PlayState::Play || st.state == PlayState::Pause,
        line_free(opt_text(song.artist)),
        line_free(opt_text(song.title)),
        time_pair_free(st.time),
    ensures
        status_text(st, song) == title_text(song) + now_line_text(st) + toggles_text(st),
        newline_count(title_text(song)) == 1 && title_text(song).last() == '\n',
        newline_count(now_line_text(st)) == 1 && now_line_text(st).last() == '\n',
        newline_count(toggles_text(st)) == 1 && toggles_text(st).last() == '\n',
        newline_count(status_text(st, song)) == 3,
{
    lemma_title_one_line(song);
    lemma_now_line_one_line(st);
    lemma_toggles_one_line(st);
    lemma_newline_count_concat(title_text(song), now_line_text(st));
    lemma_newline_count_concat(title_text(song) + now_line_text(st), toggles_text(st));
}

/// The queue position shown in the status line is one-based: for zero-based
/// index `p`, the digits after the hash sign are the decimal text of `p + 1`.
pub proof fn lemma_position_one_based(song_pos: Option<u32>, queue_len: u32, p: u32)
    requires
        song_pos == Some(p),
    ensures
        position_text(song_pos, queue_len) == "#"@ + dec_text((p + 1) as nat) + "/"@ + dec_text(
            queue_len as nat,
        ) + "    "@,
{
}

/// An `add` argument that matches no library entry selects nothing — and so
/// requests no enqueue and raises no error.
pub proof fn lemma_add_miss_selects_nothing(
    library: Seq<SongInfo>,
    path: Seq<char>,
    picked: Seq<usize>,
)
    requires
        forall|i: int| 0 <= i < library.len() ==> !file_matches(library[i], path),
        forall|j: int|
            0 <= j < picked.len() ==> picked[j] < library.len() && file_matches(
                library[picked[j] as int],
                path,
            ),
    ensures
        picked.len() == 0,
{
    if picked.len() > 0 {
        assert(file_matches(library[picked[0] as int], path));
    }
}

/// An `add` argument that matches exactly one library entry selects exactly
/// that entry, exactly once.
pub proof fn lemma_add_single_match(
    library: Seq<SongInfo>,
    path: Seq<char>,
    picked: Seq<usize>,
    m: usize,
)
    requires
        m < library.len(),
        file_matches(library[m as int], path),
        forall|i: int| 0 <= i < library.len() && file_matches(library[i], path) ==> i == m as int,
        forall|j: int|
            0 <= j < picked.len() ==> picked[j] < library.len() && file_matches(
                library[picked[j] as int],
                path,
            ),
        forall|i: int|
            0 <= i < library.len() && file_matches(library[i], path) ==> picked.contains(
                i as usize,
            ),
        forall|j1: int, j2: int| 0 <= j1 < j2 < picked.len() ==> picked[j1] < picked[j2],
    ensures
        picked =~= seq![m],
{
    assert(picked.contains(m));
    assert(forall|j: int| 0 <= j < picked.len() ==> picked[j] == m);
    if picked.len() >= 2 {
        assert(picked[0] == m && picked[1] == m);
    }
}

/// Rendering the same unchanged snapshot twice gives byte-identical text:
/// the status view is a function of the snapshot alone.
pub proof fn lemma_status_render_deterministic(
    st: PlayerStatus,
    song: SongInfo,
    r1: Seq<Chunk>,
    r2: Seq<Chunk>,
)
    requires
        flat(r1) == status_text(st, song),
        flat(r2) == status_text(st, song),
    ensures
        flat(r1) == flat(r2),
{
}

} // verus!
