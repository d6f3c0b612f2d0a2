//! The statistics view: counts of artists, albums and songs, then four
//! durations in the clock form the `time` crate writes.

use vstd::prelude::*;
use crate::chunk::{flat, label_texts, push_label, push_text, push_text_owned, Chunk};
use crate::model::{DaemonStats, Dur, ViewError};
use crate::numfmt::{dec_text, fmt_u64};

verus! {

/// What the clock form of a span of `secs` seconds and `nanos` nanoseconds
/// looks like; stated only by name, the exact text is the clock library's
/// business.
pub uninterp spec fn clock_text(secs: int, nanos: int) -> Seq<char>;

/// Relies on `time::Duration`: converting from `core::time::Duration`
/// succeeds whenever the seconds fit a signed 64-bit value, and the Display
/// text is a function of the seconds and nanoseconds alone — days, hours,
/// minutes, seconds and sub-second parts with unit letters, so never a
/// newline.
#[verifier::external_body]
fn clock_format(secs: u64, nanos: u32) -> (r: String)
    requires
        secs <= i64::MAX as u64,
        nanos < 1_000_000_000,
    ensures
        r@ == clock_text(secs as int, nanos as int),
        forall|i: int| 0 <= i < r@.len() ==> r@[i] != '\n',
{
    let d = time::Duration::try_from(core::time::Duration::new(secs, nanos)).unwrap();
    format!("{}", d)
}

/// The clock text of one duration, or the error for one that does not fit
/// the signed range the clock formatting accepts.
pub fn fmt_clock(d: &Dur) -> (r: Result<String, ViewError>)
    requires
        d.wf(),
    ensures
        match r {
            Ok(s) => d.secs <= i64::MAX as u64 && s@ == clock_text(d.secs as int, d.nanos as int),
            Err(e) => d.secs > i64::MAX as u64 && e == ViewError::DurationOutOfRange,
        },
{
    if d.secs > i64::MAX as u64 {
        Err(ViewError::DurationOutOfRange)
    } else {
        Ok(clock_format(d.secs, d.nanos))
    }
}

/// Whether every duration of a statistics snapshot fits the clock form.
pub open spec fn stats_fit(s: DaemonStats) -> bool {
    s.playtime.secs <= i64::MAX as u64 && s.uptime.secs <= i64::MAX as u64 && s.db_update.secs
        <= i64::MAX as u64 && s.db_playtime.secs <= i64::MAX as u64
}

/// One statistics line: its bold label, its value, one newline.
pub open spec fn stat_line_text(label: Seq<char>, value: Seq<char>) -> Seq<char> {
    label + value + "\n"@
}

/// The clock text of one duration value.
pub open spec fn dur_clock_text(d: Dur) -> Seq<char> {
    clock_text(d.secs as int, d.nanos as int)
}

/// The whole statistics view: three counts, a blank separator line, four
/// durations, each on its own labelled line.
pub open spec fn stats_text(s: DaemonStats) -> Seq<char> {
    stat_line_text("Artists: "@, dec_text(s.artists as nat)) + stat_line_text(
        "Albums: "@,
        dec_text(s.albums as nat),
    ) + stat_line_text("Songs: "@, dec_text(s.songs as nat)) + "\n"@ + stat_line_text(
        "Play Time: "@,
        dur_clock_text(s.playtime),
    ) + stat_line_text("Uptime: "@, dur_clock_text(s.uptime)) + stat_line_text(
        "DB Updated: "@,
        dur_clock_text(s.db_update),
    ) + stat_line_text("DB Play Time: "@, dur_clock_text(s.db_playtime))
}

/// The texts shown emphasised in the statistics view: the seven line
/// labels, in order, and nothing else.
pub open spec fn stats_labels() -> Seq<Seq<char>> {
    seq![
        "Artists: "@,
        "Albums: "@,
        "Songs: "@,
        "Play Time: "@,
        "Uptime: "@,
        "DB Updated: "@,
        "DB Play Time: "@,
    ]
}

/// Appends one statistics line.
fn push_stat_line(out: &mut Vec<Chunk>, label: &str, value: String)
    ensures
        flat(final(out)@) == flat(old(out)@) + stat_line_text(label@, value@),
        label_texts(final(out)@) == label_texts(old(out)@).push(label@),
{
    push_label(out, label);
    push_text_owned(out, value);
    push_text(out, "\n");
    assert(flat(out@) =~= flat(old(out)@) + stat_line_text(label@, value@));
}

/// Renders the statistics view. It fails exactly when one of the four
/// durations does not fit the clock form's signed range, as the conversion
/// failure would have surfaced, and succeeds with the fixed eight-line text
/// otherwise.
pub fn render_stats(s: &DaemonStats) -> (r: Result<Vec<Chunk>, ViewError>)
    requires
        s.wf(),
    ensures
        match r {
            Ok(v) => stats_fit(*s) && flat(v@) == stats_text(*s) && label_texts(v@)
                == stats_labels(),
            Err(e) => !stats_fit(*s) && e == ViewError::DurationOutOfRange,
        },
{
    let playtime = match fmt_clock(&s.playtime) {
        Ok(x) => x,
        Err(e) => {
            return Err(e);
        },
    };
    let uptime = match fmt_clock(&s.uptime) {
        Ok(x) => x,
        Err(e) => {
            return Err(e);
        },
    };
    let db_update = match fmt_clock(&s.db_update) {
        Ok(x) => x,
        Err(e) => {
            return Err(e);
        },
    };
    let db_playtime = match fmt_clock(&s.db_playtime) {
        Ok(x) => x,
        Err(e) => {
            return Err(e);
        },
    };
    let mut out: Vec<Chunk> = Vec::new();
    assert(flat(out@) =~= Seq::<char>::empty());
    assert(label_texts(out@) =~= Seq::<Seq<char>>::empty());
    push_stat_line(&mut out, "Artists: ", fmt_u64(s.artists as u64));
    push_stat_line(&mut out, "Albums: ", fmt_u64(s.albums as u64));
    push_stat_line(&mut out, "Songs: ", fmt_u64(s.songs as u64));
    push_text(&mut out, "\n");
    push_stat_line(&mut out, "Play Time: ", playtime);
    push_stat_line(&mut out, "Uptime: ", uptime);
    push_stat_line(&mut out, "DB Updated: ", db_update);
    push_stat_line(&mut out, "DB Play Time: ", db_playtime);
    assert(flat(out@) =~= stats_text(*s));
    assert(label_texts(out@) =~= stats_labels());
    Ok(out)
}

} // verus!
