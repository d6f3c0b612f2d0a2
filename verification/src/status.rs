//! The status view: what one `status`, `toggle` or `play` invocation shows.
//!
//! The view branches strictly on the playback state. When the player is
//! stopped only the five toggle fields appear, on one line. When it plays or
//! pauses, three lines appear: the song title line, the state/position/time
//! line, and the toggle fields line.

use vstd::prelude::*;
use crate::chunk::{flat, label_texts, push_label, push_text, push_text_owned, Chunk};
use crate::model::{Dur, PlayState, PlayerStatus, SongInfo};
use crate::numfmt::{bool_text, dec_text, fmt_bool, fmt_i64, fmt_u64, int_text};

verus! {

/// The text of an optional metadata field: absent means empty.
pub open spec fn opt_text(o: Option<String>) -> Seq<char> {
    match o {
        Some(s) => s@,
        None => Seq::<char>::empty(),
    }
}

/// The lowercase tag shown between brackets for a playing or paused player.
pub open spec fn state_tag(s: PlayState) -> Seq<char> {
    match s {
        PlayState::Play => "playing"@,
        PlayState::Pause => "paused"@,
        PlayState::Stop => Seq::<char>::empty(),
    }
}

/// The one-based position shown to the user: the zero-based queue index
/// plus one, with an absent index defaulting to zero.
pub open spec fn shown_pos(song_pos: Option<u32>) -> nat {
    (match song_pos {
        Some(p) => p as nat,
        None => 0,
    }) + 1
}

/// What the Debug form of a span of `secs` seconds and `nanos` nanoseconds
/// looks like; stated only by name, the exact text is std's business.
pub uninterp spec fn duration_debug_text(secs: int, nanos: int) -> Seq<char>;

/// Relies on the Debug implementation of `core::time::Duration`: the text is
/// a function of the seconds and nanoseconds alone, and it holds a decimal
/// number and a unit suffix, so never a newline.
#[verifier::external_body]
fn duration_debug(secs: u64, nanos: u32) -> (r: String)
    requires
        nanos < 1_000_000_000,
    ensures
        r@ == duration_debug_text(secs as int, nanos as int),
        forall|i: int| 0 <= i < r@.len() ==> r@[i] != '\n',
{
    format!("{:?}", core::time::Duration::new(secs, nanos))
}

/// One labelled toggle field: the bold label, its value, a four-space gap.
pub open spec fn field_text(label: Seq<char>, value: Seq<char>) -> Seq<char> {
    label + value + "    "@
}

/// The bracketed state tag and its trailing gap.
pub open spec fn bracket_text(s: PlayState) -> Seq<char> {
    "["@ + state_tag(s) + "]"@ + "    "@
}

/// The queue position field: a hash sign, the one-based position, a slash,
/// the queue length, a trailing gap.
pub open spec fn position_text(song_pos: Option<u32>, queue_len: u32) -> Seq<char> {
    "#"@ + dec_text(shown_pos(song_pos)) + "/"@ + dec_text(queue_len as nat) + "    "@
}

/// The elapsed/total field: both spans in their Debug form, separated by a
/// slash; an unknown time pair defaults to two zero spans.
pub open spec fn time_pair_text(time: Option<(Dur, Dur)>) -> Seq<char> {
    let (e, t) = match time {
        Some(pair) => pair,
        None => (Dur { secs: 0, nanos: 0 }, Dur { secs: 0, nanos: 0 }),
    };
    duration_debug_text(e.secs as int, e.nanos as int) + "/"@ + duration_debug_text(
        t.secs as int,
        t.nanos as int,
    )
}

/// The toggle-fields line: volume and the four playback flags, each behind
/// its bold label, gap-separated, closed by one newline.
pub open spec fn toggles_text(st: PlayerStatus) -> Seq<char> {
    field_text("Volume: "@, int_text(st.volume as int)) + field_text(
        "Repeat: "@,
        bool_text(st.repeat),
    ) + field_text("Random: "@, bool_text(st.random)) + field_text(
        "Single: "@,
        bool_text(st.single),
    ) + field_text("Consume: "@, bool_text(st.consume)) + "\n"@
}

/// The title line: artist and title (absent fields empty), separated by a
/// dash, closed by one newline.
pub open spec fn title_text(song: SongInfo) -> Seq<char> {
    opt_text(song.artist) + " - "@ + opt_text(song.title) + "\n"@
}

/// The state/position/time line: the bracketed state tag, the one-based
/// queue position over the queue length, and the elapsed/total time pair,
/// closed by one newline.
pub open spec fn now_line_text(st: PlayerStatus) -> Seq<char> {
    bracket_text(st.state) + position_text(st.song_pos, st.queue_len) + time_pair_text(st.time)
        + "\n"@
}

/// The texts shown emphasised in the status view: the five toggle-field
/// labels, in order, and nothing else.
pub open spec fn toggles_labels() -> Seq<Seq<char>> {
    seq!["Volume: "@, "Repeat: "@, "Random: "@, "Single: "@, "Consume: "@]
}

/// The whole status view: the toggle fields alone for a stopped player,
/// three lines otherwise.
pub open spec fn status_text(st: PlayerStatus, song: SongInfo) -> Seq<char> {
    if st.state == PlayState::Stop {
        toggles_text(st)
    } else {
        title_text(song) + now_line_text(st) + toggles_text(st)
    }
}

/// Appends one labelled toggle field.
fn push_field(out: &mut Vec<Chunk>, label: &str, value: String)
    ensures
        flat(final(out)@) == flat(old(out)@) + field_text(label@, value@),
        label_texts(final(out)@) == label_texts(old(out)@).push(label@),
{
    push_label(out, label);
    push_text_owned(out, value);
    push_text(out, "    ");
    assert(flat(out@) =~= flat(old(out)@) + field_text(label@, value@));
}

/// Appends the toggle-fields line, shared by every branch of the view.
fn push_toggles(out: &mut Vec<Chunk>, st: &PlayerStatus)
    ensures
        flat(final(out)@) == flat(old(out)@) + toggles_text(*st),
        label_texts(final(out)@) == label_texts(old(out)@) + toggles_labels(),
{
    push_field(out, "Volume: ", fmt_i64(st.volume as i64));
    push_field(out, "Repeat: ", fmt_bool(st.repeat));
    push_field(out, "Random: ", fmt_bool(st.random));
    push_field(out, "Single: ", fmt_bool(st.single));
    push_field(out, "Consume: ", fmt_bool(st.consume));
    push_text(out, "\n");
    assert(flat(out@) =~= flat(old(out)@) + toggles_text(*st));
    assert(label_texts(out@) =~= label_texts(old(out)@) + toggles_labels());
}

/// Appends the title line.
fn push_title(out: &mut Vec<Chunk>, song: &SongInfo)
    ensures
        flat(final(out)@) == flat(old(out)@) + title_text(*song),
        label_texts(final(out)@) == label_texts(old(out)@),
{
    match &song.artist {
        Some(a) => push_text(out, a.as_str()),
        None => (),
    }
    push_text(out, " - ");
    match &song.title {
        Some(t) => push_text(out, t.as_str()),
        None => (),
    }
    push_text(out, "\n");
    assert(flat(out@) =~= flat(old(out)@) + title_text(*song));
}

/// Appends the bracketed state tag and its gap.
fn push_bracket(out: &mut Vec<Chunk>, state: PlayState)
    ensures
        flat(final(out)@) == flat(old(out)@) + bracket_text(state),
        label_texts(final(out)@) == label_texts(old(out)@),
{
    push_text(out, "[");
    match state {
        PlayState::Play => push_text(out, "playing"),
        PlayState::Pause => push_text(out, "paused"),
        PlayState::Stop => (),
    }
    push_text(out, "]");
    push_text(out, "    ");
    assert(flat(out@) =~= flat(old(out)@) + bracket_text(state));
}

/// Appends the queue position field.
fn push_position(out: &mut Vec<Chunk>, song_pos: Option<u32>, queue_len: u32)
    ensures
        flat(final(out)@) == flat(old(out)@) + position_text(song_pos, queue_len),
        label_texts(final(out)@) == label_texts(old(out)@),
{
    push_text(out, "#");
    let p: u64 = match song_pos {
        Some(p) => p as u64,
        None => 0,
    };
    push_text_owned(out, fmt_u64(p + 1));
    push_text(out, "/");
    push_text_owned(out, fmt_u64(queue_len as u64));
    push_text(out, "    ");
    assert(flat(out@) =~= flat(old(out)@) + position_text(song_pos, queue_len));
}

/// Appends the elapsed/total time field.
fn push_time_pair(out: &mut Vec<Chunk>, time: Option<(Dur, Dur)>)
    requires
        match time {
            Some((e, t)) => e.wf() && t.wf(),
            None => true,
        },
    ensures
        flat(final(out)@) == flat(old(out)@) + time_pair_text(time),
        label_texts(final(out)@) == label_texts(old(out)@),
{
    let (e, t): (Dur, Dur) = match time {
        Some(pair) => pair,
        None => (Dur { secs: 0, nanos: 0 }, Dur { secs: 0, nanos: 0 }),
    };
    push_text_owned(out, duration_debug(e.secs, e.nanos));
    push_text(out, "/");
    push_text_owned(out, duration_debug(t.secs, t.nanos));
    assert(flat(out@) =~= flat(old(out)@) + time_pair_text(time));
}

/// Appends the state/position/time line.
fn push_now_line(out: &mut Vec<Chunk>, st: &PlayerStatus)
    requires
        st.wf(),
    ensures
        flat(final(out)@) == flat(old(out)@) + now_line_text(*st),
        label_texts(final(out)@) == label_texts(old(out)@),
{
    push_bracket(out, st.state);
    push_position(out, st.song_pos, st.queue_len);
    push_time_pair(out, st.time);
    push_text(out, "\n");
    assert(flat(out@) =~= flat(old(out)@) + now_line_text(*st));
}

/// Renders the status view for one snapshot: the toggle fields alone when
/// the player is stopped, the three fixed lines when it plays or pauses.
/// Exactly the five toggle-field labels come out emphasised.
pub fn render_status(st: &PlayerStatus, song: &SongInfo) -> (r: Vec<Chunk>)
    requires
        st.wf(),
    ensures
        flat(r@) == status_text(*st, *song),
        label_texts(r@) == toggles_labels(),
{
    let mut out: Vec<Chunk> = Vec::new();
    assert(flat(out@) =~= Seq::<char>::empty());
    assert(label_texts(out@) =~= Seq::<Seq<char>>::empty());
    match st.state {
        PlayState::Stop => {
            push_toggles(&mut out, st);
        },
        _ => {
            push_title(&mut out, song);
            push_now_line(&mut out, st);
            push_toggles(&mut out, st);
        },
    }
    assert(flat(out@) =~= status_text(*st, *song));
    assert(label_texts(out@) =~= toggles_labels());
    out
}

} // verus!
