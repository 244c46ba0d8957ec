use comrad::utils::data::{
    duration_reader, format_duration, get_album, get_artist, get_tags, get_title, get_total_time,
    has_path, now_playing_line, reader_for_extension, reader_for_lowered, shown_title,
    volume_level, Reader, Tags, VolumeLevel, TRAILING_ALLOWANCE,
};

fn tags() -> Option<Tags> {
    Some(Tags {
        album_title: Some("Album".to_string()),
        artist: None,
        title: Some("Title".to_string()),
    })
}

#[test]
fn format_duration_minutes_and_seconds() {
    assert_eq!(format_duration(0), "00:00");
    assert_eq!(format_duration(999), "00:00");
    assert_eq!(format_duration(1000), "00:01");
    assert_eq!(format_duration(59_000), "00:59");
    assert_eq!(format_duration(61_000), "01:01");
    assert_eq!(format_duration(754_321), "12:34");
    assert_eq!(format_duration(3_599_999), "59:59");
}

#[test]
fn format_duration_with_hours() {
    assert_eq!(format_duration(3_600_000), "01:00:00");
    assert_eq!(format_duration(3_661_000), "01:01:01");
    assert_eq!(format_duration(86_399_000), "23:59:59");
    assert_eq!(format_duration(360_000_000), "100:00:00");
    assert_eq!(format_duration(u64::MAX), "5124095576030:25:51");
}

#[test]
fn total_time_adds_a_second_to_a_measure() {
    assert_eq!(TRAILING_ALLOWANCE, 1000);
    assert_eq!(get_total_time(Some(180_000)), 181_000);
    assert_eq!(get_total_time(Some(1)), 1001);
}

#[test]
fn total_time_of_nothing_is_zero() {
    assert_eq!(get_total_time(Some(0)), 0);
    assert_eq!(get_total_time(None), 0);
}

#[test]
fn has_path_wants_a_name() {
    assert!(has_path(&Some("/a.mp3".to_string())));
    assert!(!has_path(&Some(String::new())));
    assert!(!has_path(&None));
}

#[test]
fn tags_default_to_empty_where_missing() {
    let path = Some("/a.mp3".to_string());
    assert_eq!(
        get_tags(&path, &tags()),
        ("Album".to_string(), String::new(), "Title".to_string())
    );
    assert_eq!(get_album(path.clone(), &tags()), "Album");
    assert_eq!(get_artist(path.clone(), &tags()), "");
    assert_eq!(get_title(path.clone(), &tags()), "Title");
}

#[test]
fn tags_are_empty_where_nothing_was_read() {
    let path = Some("/a.mp3".to_string());
    assert_eq!(get_tags(&path, &None), (String::new(), String::new(), String::new()));
    assert_eq!(get_title(path, &None), "");
}

#[test]
fn tags_are_empty_without_a_path() {
    assert_eq!(get_tags(&Some(String::new()), &tags()), (String::new(), String::new(), String::new()));
    assert_eq!(get_tags(&None, &tags()), (String::new(), String::new(), String::new()));
    assert_eq!(get_album(Some(String::new()), &tags()), "");
    assert_eq!(get_artist(None, &tags()), "");
    assert_eq!(get_title(Some(String::new()), &tags()), "");
}

#[test]
fn reader_for_lowered_extension() {
    assert_eq!(reader_for_lowered(&Some("mp3".to_string())), Reader::Mp3);
    assert_eq!(reader_for_lowered(&Some("MP3".to_string())), Reader::Decoder);
    assert_eq!(reader_for_lowered(&Some("flac".to_string())), Reader::Decoder);
    assert_eq!(reader_for_lowered(&Some(String::new())), Reader::Decoder);
    assert_eq!(reader_for_lowered(&None), Reader::Unknown);
}

#[test]
fn reader_for_extension_ignores_case() {
    assert_eq!(reader_for_extension(&Some("MP3".to_string())), Reader::Mp3);
    assert_eq!(reader_for_extension(&Some("Mp3".to_string())), Reader::Mp3);
    assert_eq!(reader_for_extension(&Some("mp3".to_string())), Reader::Mp3);
    assert_eq!(reader_for_extension(&Some("WAV".to_string())), Reader::Decoder);
    assert_eq!(reader_for_extension(&None), Reader::Unknown);
}

#[test]
fn duration_reader_goes_by_the_extension() {
    assert_eq!(duration_reader("/music/song.MP3"), Reader::Mp3);
    assert_eq!(duration_reader("/music/song.mp3"), Reader::Mp3);
    assert_eq!(duration_reader("/music/song.ogg"), Reader::Decoder);
    assert_eq!(duration_reader("/music/song"), Reader::Unknown);
    assert_eq!(duration_reader("mp3"), Reader::Unknown);
}

#[test]
fn volume_level_thresholds() {
    assert_eq!(volume_level(100), VolumeLevel::High);
    assert_eq!(volume_level(71), VolumeLevel::High);
    assert_eq!(volume_level(70), VolumeLevel::Medium);
    assert_eq!(volume_level(41), VolumeLevel::Medium);
    assert_eq!(volume_level(40), VolumeLevel::Low);
    assert_eq!(volume_level(1), VolumeLevel::Low);
    assert_eq!(volume_level(0), VolumeLevel::Mute);
    assert_eq!(volume_level(-5), VolumeLevel::Mute);
}

#[test]
fn shown_title_falls_back_to_the_file_name() {
    assert_eq!(shown_title("Song".to_string(), "song.mp3".to_string()), "Song");
    assert_eq!(shown_title(String::new(), "song.mp3".to_string()), "song.mp3");
    assert_eq!(shown_title(String::new(), String::new()), "");
}

#[test]
fn now_playing_line_joins_what_is_known() {
    assert_eq!(now_playing_line("/a.mp3", "Song", "Artist", "Album"), "Playing:  Song  —  Artist  —  Album");
    assert_eq!(now_playing_line("/a.mp3", "Song", "", "Album"), "Playing:  Song  —  Album");
    assert_eq!(now_playing_line("/a.mp3", "Song", "Artist", ""), "Playing:  Song  —  Artist");
    assert_eq!(now_playing_line("/a.mp3", "Song", "", ""), "Playing:  Song");
}

#[test]
fn now_playing_line_is_the_heading_while_nothing_is_selected() {
    assert_eq!(now_playing_line("", "Song", "Artist", "Album"), "Playing:  ");
}
