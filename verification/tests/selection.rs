use rmpc::library::{listing_lines, select_for_add};
use rmpc::model::{SongInfo, ViewError};
use rmpc::numfmt::{fmt_bool, fmt_i64, fmt_u64};
use rmpc::queue::{next_track_line, queue_lines};

fn song(file: &str) -> SongInfo {
    SongInfo { file: file.to_string(), artist: None, title: None }
}

#[test]
fn queue_list_marks_now_playing() {
    let queue = vec![song("A"), song("B"), song("C")];
    let lines = queue_lines(&queue, Some(1)).expect("a song is playing");
    assert_eq!(lines, vec!["             A", "Now playing: B", "             C"]);
}

#[test]
fn queue_list_without_current_song_fails() {
    let queue = vec![song("A")];
    let err = queue_lines(&queue, None).expect_err("nothing is playing");
    assert_eq!(err, ViewError::NoCurrentSong);
    assert_eq!(err.message(), "No playing song found");
}

#[test]
fn next_track_prints_following_path() {
    let queue = vec![song("A"), song("B"), song("C")];
    let line = next_track_line(&queue, Some(0)).expect("a song is playing");
    assert_eq!(line, "B");
}

#[test]
fn next_track_at_queue_end_reports_none() {
    let queue = vec![song("A"), song("B"), song("C")];
    let line = next_track_line(&queue, Some(2)).expect("a song is playing");
    assert_eq!(line, "No songs found");
}

#[test]
fn next_track_without_current_song_fails() {
    let queue = vec![song("A")];
    let err = next_track_line(&queue, None).expect_err("nothing is playing");
    assert_eq!(err, ViewError::NoCurrentSong);
}

#[test]
fn add_selects_the_matching_entry() {
    let library = vec![song("x.flac"), song("y.flac")];
    let picked = select_for_add(&library, &"y.flac".to_string());
    assert_eq!(picked, vec![1]);
}

#[test]
fn add_with_no_match_selects_nothing() {
    let library = vec![song("x.flac"), song("y.flac")];
    let picked = select_for_add(&library, &"z.flac".to_string());
    assert!(picked.is_empty());
}

#[test]
fn add_selects_every_duplicate_in_order() {
    let library = vec![song("a"), song("b"), song("a"), song("a")];
    let picked = select_for_add(&library, &"a".to_string());
    assert_eq!(picked, vec![0, 2, 3]);
}

#[test]
fn listing_prints_each_path_in_order() {
    let library = vec![song("one.flac"), song("two.flac")];
    assert_eq!(listing_lines(&library), vec!["one.flac", "two.flac"]);
}

#[test]
fn decimal_formatting_is_exact() {
    assert_eq!(fmt_u64(0), "0");
    assert_eq!(fmt_u64(7), "7");
    assert_eq!(fmt_u64(10), "10");
    assert_eq!(fmt_u64(1234567890), "1234567890");
    assert_eq!(fmt_u64(u64::MAX), "18446744073709551615");
    assert_eq!(fmt_i64(0), "0");
    assert_eq!(fmt_i64(-1), "-1");
    assert_eq!(fmt_i64(42), "42");
    assert_eq!(fmt_i64(i64::MIN), "-9223372036854775808");
    assert_eq!(fmt_bool(true), "true");
    assert_eq!(fmt_bool(false), "false");
}
