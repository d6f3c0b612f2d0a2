use rmpc::chunk::{chunks_to_string, Chunk};
use rmpc::model::{DaemonStats, Dur, PlayState, PlayerStatus, SongInfo, ViewError};
use rmpc::stats::{fmt_clock, render_stats};
use rmpc::status::render_status;

fn base_status(state: PlayState) -> PlayerStatus {
    PlayerStatus {
        volume: 50,
        repeat: true,
        random: false,
        single: false,
        consume: true,
        state,
        song_pos: Some(0),
        queue_len: 3,
        time: Some((Dur { secs: 75, nanos: 0 }, Dur { secs: 190, nanos: 0 })),
    }
}

fn sample_song() -> SongInfo {
    SongInfo {
        file: "a.flac".to_string(),
        artist: Some("Artist".to_string()),
        title: Some("Title".to_string()),
    }
}

fn label_count(chunks: &[Chunk]) -> usize {
    chunks.iter().filter(|c| matches!(c, Chunk::Label(_))).count()
}

const TOGGLES: &str =
    "Volume: 50    Repeat: true    Random: false    Single: false    Consume: true    \n";

#[test]
fn stopped_status_is_one_toggles_line() {
    let st = base_status(PlayState::Stop);
    let chunks = render_status(&st, &sample_song());
    let text = chunks_to_string(&chunks);
    assert_eq!(text, TOGGLES);
    assert_eq!(text.matches('\n').count(), 1);
    assert!(text.ends_with('\n'));
    assert_eq!(label_count(&chunks), 5);
}

#[test]
fn playing_status_is_three_lines_in_order() {
    let st = base_status(PlayState::Play);
    let text = chunks_to_string(&render_status(&st, &sample_song()));
    let elapsed = format!("{:?}", std::time::Duration::new(75, 0));
    let total = format!("{:?}", std::time::Duration::new(190, 0));
    let expected = format!(
        "Artist - Title\n[playing]    #1/3    {}/{}\n{}",
        elapsed, total, TOGGLES
    );
    assert_eq!(text, expected);
    assert_eq!(text.matches('\n').count(), 3);
}

#[test]
fn paused_status_shows_paused_tag() {
    let st = base_status(PlayState::Pause);
    let text = chunks_to_string(&render_status(&st, &sample_song()));
    assert!(text.contains("[paused]"));
    assert!(!text.contains("[playing]"));
    assert_eq!(text.matches('\n').count(), 3);
}

#[test]
fn missing_metadata_renders_empty() {
    let st = base_status(PlayState::Play);
    let song = SongInfo { file: "a.flac".to_string(), artist: None, title: None };
    let text = chunks_to_string(&render_status(&st, &song));
    assert!(text.starts_with(" - \n"));
}

#[test]
fn position_is_internal_index_plus_one() {
    let mut st = base_status(PlayState::Play);
    st.song_pos = Some(0);
    let text = chunks_to_string(&render_status(&st, &sample_song()));
    assert!(text.contains("#1/3"));
    st.song_pos = Some(4);
    let text = chunks_to_string(&render_status(&st, &sample_song()));
    assert!(text.contains("#5/3"));
}

#[test]
fn absent_position_and_time_use_defaults() {
    let mut st = base_status(PlayState::Play);
    st.song_pos = None;
    st.time = None;
    let text = chunks_to_string(&render_status(&st, &sample_song()));
    let zero = format!("{:?}", std::time::Duration::new(0, 0));
    assert!(text.contains("#1/3"));
    assert!(text.contains(&format!("{}/{}", zero, zero)));
}

#[test]
fn status_render_is_idempotent() {
    let st = base_status(PlayState::Play);
    let song = sample_song();
    let first = chunks_to_string(&render_status(&st, &song));
    let second = chunks_to_string(&render_status(&st, &song));
    assert_eq!(first, second);
    let st = base_status(PlayState::Stop);
    let first = chunks_to_string(&render_status(&st, &song));
    let second = chunks_to_string(&render_status(&st, &song));
    assert_eq!(first, second);
}

#[test]
fn stats_render_matches_fixed_layout() {
    let stats = DaemonStats {
        artists: 2,
        albums: 3,
        songs: 4,
        playtime: Dur { secs: 3661, nanos: 0 },
        uptime: Dur { secs: 90061, nanos: 0 },
        db_update: Dur { secs: 0, nanos: 0 },
        db_playtime: Dur { secs: 59, nanos: 0 },
    };
    let chunks = render_stats(&stats).expect("all durations fit");
    let text = chunks_to_string(&chunks);
    let clock = |secs: u64| {
        let d = time::Duration::try_from(std::time::Duration::new(secs, 0)).unwrap();
        format!("{}", d)
    };
    let expected = format!(
        "Artists: 2\nAlbums: 3\nSongs: 4\n\nPlay Time: {}\nUptime: {}\nDB Updated: {}\nDB Play Time: {}\n",
        clock(3661),
        clock(90061),
        clock(0),
        clock(59)
    );
    assert_eq!(text, expected);
    assert_eq!(label_count(&chunks), 7);
}

#[test]
fn unknown_volume_renders_as_minus_one() {
    let mut st = base_status(PlayState::Stop);
    st.volume = -1;
    let text = chunks_to_string(&render_status(&st, &sample_song()));
    assert!(text.starts_with("Volume: -1    "));
}

#[test]
fn clock_text_matches_the_clock_library() {
    let formatted = fmt_clock(&Dur { secs: 86_400 + 3_600 + 61, nanos: 500_000_000 })
        .expect("the duration fits");
    let expected = time::Duration::try_from(std::time::Duration::new(90_061, 500_000_000))
        .unwrap()
        .to_string();
    assert_eq!(formatted, expected);
    let err = fmt_clock(&Dur { secs: (i64::MAX as u64) + 1, nanos: 0 }).expect_err("too long");
    assert_eq!(err, ViewError::DurationOutOfRange);
    let edge = fmt_clock(&Dur { secs: i64::MAX as u64, nanos: 999_999_999 });
    assert!(edge.is_ok());
}

#[test]
fn stats_render_fails_on_oversized_duration() {
    let stats = DaemonStats {
        artists: 0,
        albums: 0,
        songs: 0,
        playtime: Dur { secs: u64::MAX, nanos: 0 },
        uptime: Dur { secs: 0, nanos: 0 },
        db_update: Dur { secs: 0, nanos: 0 },
        db_playtime: Dur { secs: 0, nanos: 0 },
    };
    let err = render_stats(&stats).expect_err("the playtime cannot convert");
    assert_eq!(err, ViewError::DurationOutOfRange);
    let raw = time::Duration::try_from(std::time::Duration::new(u64::MAX, 0))
        .expect_err("out of range")
        .to_string();
    assert_eq!(err.message(), raw);
}
