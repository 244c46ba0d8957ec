use comrad::media::navigation::RepeatState;
use comrad::media::session::{Command, PlayState, Session};
use comrad::media::source::Playlist;

fn abc() -> Playlist {
    let mut playlist = Playlist::new("abc".to_string());
    playlist.add_source(Some("A".to_string()));
    playlist.add_source(Some("B".to_string()));
    playlist.add_source(Some("C".to_string()));
    playlist
}

fn playing(source: &str) -> Session {
    let mut session = Session::new();
    session.play_source(source.to_string(), Some(abc()));
    session.setup_stopwatch(0);
    session
}

fn sorted(list: Option<Playlist>) -> Vec<String> {
    let mut sources = list.unwrap().get_sources().unwrap();
    sources.sort();
    sources
}

#[test]
fn new_session_is_at_rest() {
    let session = Session::new();
    assert_eq!(session.play_state(), PlayState::Stopped);
    assert_eq!(session.repeat_state(), RepeatState::Off);
    assert!(!session.is_shuffled());
    assert_eq!(session.now_playing(), "");
    assert!(session.now_playing_list().is_none());
    assert!(session.sorted_reference_list().is_none());
    assert_eq!(session.elapsed(), 0);
    assert_eq!(session.start_offset(), 0);
    assert_eq!(session.total_duration(), 0);
    assert_eq!(session.clock_anchor(), None);
}

#[test]
fn stop_twice_is_stop_once() {
    let mut once = playing("B");
    once.update_playback(4000, 9000);
    let mut twice = playing("B");
    twice.update_playback(4000, 9000);
    assert_eq!(once.stop(), Command::Halt);
    assert_eq!(twice.stop(), Command::Halt);
    assert_eq!(twice.stop(), Command::Halt);
    for session in [&once, &twice] {
        assert_eq!(session.play_state(), PlayState::Stopped);
        assert_eq!(session.elapsed(), 0);
        assert_eq!(session.start_offset(), 0);
        assert_eq!(session.total_duration(), 0);
        assert_eq!(session.clock_anchor(), None);
        assert_eq!(session.now_playing(), "B");
    }
    assert_eq!(once.get_elapsed_time(123_456), 0);
    assert_eq!(twice.get_elapsed_time(123_456), 0);
}

#[test]
fn elapsed_follows_the_clock_while_playing() {
    let mut session = Session::new();
    session.cue("A".to_string(), Some(abc()));
    session.set_elapsed(7000);
    let command = session.play(100);
    assert_eq!(command, Command::Start { source: "A".to_string(), at: 7000 });
    session.setup_stopwatch(100);
    assert_eq!(session.start_offset(), 7000);
    assert_eq!(session.clock_anchor(), Some(100));
    assert_eq!(session.get_elapsed_time(100), 7000);
    assert_eq!(session.get_elapsed_time(350), 7250);
    session.setup_stopwatch(350);
    assert_eq!(session.get_elapsed_time(350), 7250);
    assert_eq!(session.get_elapsed_time(1100), 8000);
    let mut last = 0;
    for now in [350, 351, 500, 500, 10_000] {
        let elapsed = session.get_elapsed_time(now);
        assert!(elapsed >= last);
        last = elapsed;
    }
}

#[test]
fn clock_behind_the_anchor_counts_as_standing_still() {
    let mut session = playing("A");
    session.setup_stopwatch(500);
    assert_eq!(session.get_elapsed_time(400), 500);
}

#[test]
fn pause_freezes_elapsed_at_the_tick() {
    let mut session = playing("A");
    let command = session.play(2500);
    assert_eq!(command, Command::Suspend { at: 2500 });
    assert_eq!(session.play_state(), PlayState::Paused);
    session.setup_stopwatch(2600);
    assert_eq!(session.clock_anchor(), None);
    assert_eq!(session.elapsed(), 2600);
    assert_eq!(session.get_elapsed_time(99_000), 2600);
    let resumed = session.play(99_000);
    assert_eq!(resumed, Command::Start { source: "A".to_string(), at: 2600 });
    assert_eq!(session.play_state(), PlayState::Playing);
    session.setup_stopwatch(99_000);
    assert_eq!(session.get_elapsed_time(99_400), 3000);
}

#[test]
fn pause_operation_halts() {
    let mut session = playing("A");
    assert_eq!(session.pause(), Command::Halt);
    assert_eq!(session.play_state(), PlayState::Paused);
    assert_eq!(session.now_playing(), "A");
}

#[test]
fn repeat_cycle_closes_after_three() {
    let mut session = Session::new();
    assert_eq!(session.repeat_state(), RepeatState::Off);
    session.repeat();
    assert_eq!(session.repeat_state(), RepeatState::All);
    session.repeat();
    assert_eq!(session.repeat_state(), RepeatState::One);
    session.repeat();
    assert_eq!(session.repeat_state(), RepeatState::Off);
}

#[test]
fn repeat_leaves_navigation_list_alone() {
    let mut session = playing("A");
    let before = session.now_playing_list().unwrap().get_sources();
    session.repeat();
    assert_eq!(session.now_playing_list().unwrap().get_sources(), before);
    assert_eq!(session.now_playing(), "A");
    assert_eq!(session.play_state(), PlayState::Playing);
}

#[test]
fn skip_forward_wraps_under_repeat_all() {
    let mut session = playing("C");
    session.repeat();
    assert_eq!(session.repeat_state(), RepeatState::All);
    let command = session.skip_forward();
    assert_eq!(session.now_playing(), "A");
    assert_eq!(session.play_state(), PlayState::Playing);
    assert_eq!(command, Command::Start { source: "A".to_string(), at: 0 });
}

#[test]
fn skip_forward_ends_under_repeat_off() {
    let mut session = playing("C");
    let command = session.skip_forward();
    assert_eq!(session.now_playing(), "C");
    assert_eq!(session.play_state(), PlayState::Stopped);
    assert_eq!(command, Command::Halt);
}

#[test]
fn skip_forward_ends_under_repeat_one() {
    let mut session = playing("C");
    session.repeat();
    session.repeat();
    let command = session.skip_forward();
    assert_eq!(session.now_playing(), "C");
    assert_eq!(session.play_state(), PlayState::Stopped);
    assert_eq!(command, Command::Halt);
}

#[test]
fn skip_forward_advances_and_plays() {
    let mut session = playing("A");
    let command = session.skip_forward();
    assert_eq!(session.now_playing(), "B");
    assert_eq!(session.play_state(), PlayState::Playing);
    assert_eq!(command, Command::Start { source: "B".to_string(), at: 0 });
    assert_eq!(session.elapsed(), 0);
    session.setup_stopwatch(50_000);
    assert_eq!(session.start_offset(), 0);
    assert_eq!(session.get_elapsed_time(50_010), 10);
}

#[test]
fn skip_forward_without_list_only_stops() {
    let mut session = Session::new();
    assert_eq!(session.skip_forward(), Command::Halt);
    assert_eq!(session.play_state(), PlayState::Stopped);
}

#[test]
fn skip_backward_within_three_seconds_goes_back() {
    let mut session = playing("B");
    let command = session.skip_backward(2000);
    assert_eq!(session.now_playing(), "A");
    assert_eq!(session.play_state(), PlayState::Stopped);
    assert_eq!(command, Command::Halt);
    assert_eq!(session.elapsed(), 0);
}

#[test]
fn skip_backward_after_three_seconds_stays() {
    let mut session = playing("B");
    session.skip_backward(5000);
    assert_eq!(session.now_playing(), "B");
    assert_eq!(session.play_state(), PlayState::Stopped);
}

#[test]
fn skip_backward_uses_elapsed_from_before_the_stop() {
    let mut session = Session::new();
    session.cue("B".to_string(), Some(abc()));
    session.set_elapsed(5000);
    session.skip_backward(0);
    assert_eq!(session.now_playing(), "B");
    let mut early = Session::new();
    early.cue("B".to_string(), Some(abc()));
    early.set_elapsed(3000);
    early.skip_backward(0);
    assert_eq!(early.now_playing(), "A");
}

#[test]
fn skip_backward_at_first_entry_stays() {
    let mut session = playing("A");
    session.skip_backward(100);
    assert_eq!(session.now_playing(), "A");
}

#[test]
fn end_of_track_under_repeat_one_restarts() {
    let mut session = playing("A");
    session.repeat();
    session.repeat();
    assert_eq!(session.repeat_state(), RepeatState::One);
    assert_eq!(session.update_playback(9_999, 10_000), None);
    assert_eq!(session.total_duration(), 10_000);
    let command = session.update_playback(10_000, 10_000);
    assert_eq!(command, Some(Command::Start { source: "A".to_string(), at: 0 }));
    assert_eq!(session.now_playing(), "A");
    assert_eq!(session.play_state(), PlayState::Playing);
    assert_eq!(session.elapsed(), 0);
    session.setup_stopwatch(10_000);
    assert_eq!(session.get_elapsed_time(10_000), 0);
    assert_eq!(session.get_elapsed_time(10_500), 500);
}

#[test]
fn end_of_track_advances_under_repeat_off() {
    let mut session = playing("A");
    let command = session.update_playback(12_000, 10_000);
    assert_eq!(command, Some(Command::Start { source: "B".to_string(), at: 0 }));
    assert_eq!(session.now_playing(), "B");
    assert_eq!(session.play_state(), PlayState::Playing);
}

#[test]
fn end_of_last_track_stops_under_repeat_off() {
    let mut session = playing("C");
    let command = session.update_playback(10_000, 10_000);
    assert_eq!(command, Some(Command::Halt));
    assert_eq!(session.now_playing(), "C");
    assert_eq!(session.play_state(), PlayState::Stopped);
    assert_eq!(session.total_duration(), 0);
}

#[test]
fn end_of_last_track_wraps_under_repeat_all() {
    let mut session = playing("C");
    session.repeat();
    let command = session.update_playback(10_000, 10_000);
    assert_eq!(command, Some(Command::Start { source: "A".to_string(), at: 0 }));
    assert_eq!(session.now_playing(), "A");
}

#[test]
fn unknown_length_never_ends_the_track() {
    let mut session = playing("A");
    assert_eq!(session.update_playback(u64::MAX / 2, 0), None);
    assert_eq!(session.play_state(), PlayState::Playing);
    assert_eq!(session.total_duration(), 0);
    assert_eq!(session.now_playing(), "A");
}

#[test]
fn nothing_selected_never_ends() {
    let mut session = Session::new();
    session.play(0);
    session.setup_stopwatch(0);
    assert_eq!(session.update_playback(50_000, 10_000), None);
    assert_eq!(session.total_duration(), 0);
    assert_eq!(session.play_state(), PlayState::Playing);
}

#[test]
fn shuffle_on_then_off_restores_reference_list() {
    let mut session = playing("A");
    session.toggle_shuffle();
    assert!(session.is_shuffled());
    let shuffled = session.now_playing_list();
    assert_eq!(sorted(shuffled), vec!["A".to_string(), "B".to_string(), "C".to_string()]);
    session.toggle_shuffle();
    assert!(!session.is_shuffled());
    assert_eq!(
        session.now_playing_list().unwrap().get_sources(),
        session.sorted_reference_list().unwrap().get_sources()
    );
    assert_eq!(
        session.now_playing_list().unwrap().get_sources(),
        Some(vec!["A".to_string(), "B".to_string(), "C".to_string()])
    );
    assert_eq!(session.now_playing_list().unwrap().get_id(), session.sorted_reference_list().unwrap().get_id());
}

#[test]
fn shuffle_off_without_reference_keeps_list() {
    let mut session = Session::new();
    session.shuffle();
    assert!(session.now_playing_list().is_none());
}

#[test]
fn shuffle_on_without_list_gives_empty_list() {
    let mut session = Session::new();
    session.toggle_shuffle();
    assert!(session.now_playing_list().unwrap().is_empty());
}

#[test]
fn play_refreshes_list_from_reference() {
    let mut session = Session::new();
    session.cue("A".to_string(), Some(abc()));
    session.toggle_shuffle();
    session.toggle_shuffle();
    session.play(0);
    assert_eq!(
        session.now_playing_list().unwrap().get_sources(),
        Some(vec!["A".to_string(), "B".to_string(), "C".to_string()])
    );
}

#[test]
fn cue_is_ignored_while_playing() {
    let mut session = playing("A");
    session.cue("Z".to_string(), None);
    assert_eq!(session.now_playing(), "A");
    assert!(session.now_playing_list().is_some());
    session.pause();
    session.cue("Z".to_string(), None);
    assert_eq!(session.now_playing(), "Z");
    assert!(session.now_playing_list().is_none());
    assert!(session.sorted_reference_list().is_none());
}

#[test]
fn play_source_stops_then_starts_from_zero() {
    let mut session = playing("A");
    session.setup_stopwatch(4000);
    let command = session.play_source("C".to_string(), Some(abc()));
    assert_eq!(command, Command::Start { source: "C".to_string(), at: 0 });
    assert_eq!(session.now_playing(), "C");
    assert_eq!(session.play_state(), PlayState::Playing);
    assert_eq!(session.elapsed(), 0);
    assert_eq!(session.clock_anchor(), None);
}

#[test]
fn play_playlist_opens_with_selected_when_it_ends_the_list() {
    let mut session = Session::new();
    let command = session.play_playlist(abc(), &"C".to_string());
    assert_eq!(command, Command::Start { source: "C".to_string(), at: 0 });
    assert_eq!(session.now_playing(), "C");
}

#[test]
fn play_playlist_opens_with_first_otherwise() {
    let mut session = Session::new();
    let command = session.play_playlist(abc(), &"B".to_string());
    assert_eq!(command, Command::Start { source: "A".to_string(), at: 0 });
    assert_eq!(session.now_playing(), "A");
    assert_eq!(session.play_state(), PlayState::Playing);
}

#[test]
fn play_playlist_that_is_empty_keeps_source() {
    let mut session = Session::new();
    session.cue("Q".to_string(), None);
    let command = session.play_playlist(Playlist::new(String::new()), &"B".to_string());
    assert_eq!(command, Command::Start { source: "Q".to_string(), at: 0 });
}

#[test]
fn clear_lets_go_of_source_and_list() {
    let mut session = playing("B");
    assert_eq!(session.clear(), Command::Halt);
    assert_eq!(session.now_playing(), "");
    assert!(session.now_playing_list().is_none());
    assert!(session.sorted_reference_list().is_some());
    assert_eq!(session.play_state(), PlayState::Stopped);
}

#[test]
fn reference_list_can_be_replaced() {
    let mut session = playing("A");
    session.set_sorted_reference_list(None);
    assert!(session.sorted_reference_list().is_none());
    assert!(session.now_playing_list().is_some());
    session.shuffle();
    assert_eq!(
        session.now_playing_list().unwrap().get_sources(),
        Some(vec!["A".to_string(), "B".to_string(), "C".to_string()])
    );
}

#[test]
fn clock_in_range_guards_the_sum() {
    let mut session = Session::new();
    session.set_elapsed(u64::MAX);
    assert!(session.clock_in_range(u64::MAX));
    session.play(0);
    session.setup_stopwatch(10);
    assert_eq!(session.start_offset(), u64::MAX);
    assert!(session.clock_in_range(10));
    assert!(session.clock_in_range(5));
    assert!(!session.clock_in_range(11));
}
