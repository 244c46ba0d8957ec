use comrad::media::library::{add_playlist, remove_playlist, renamed, save_playlists};
use comrad::media::source::Playlist;

fn playlist(id: &str, name: &str, sources: &[&str]) -> Playlist {
    let mut playlist = Playlist::new(name.to_string());
    playlist.set_id(id.to_string());
    for source in sources {
        playlist.add_source(Some(source.to_string()));
    }
    playlist
}

fn ids(playlists: &Vec<Playlist>) -> Vec<String> {
    playlists.iter().map(|p| p.get_id().unwrap()).collect()
}

fn names(playlists: &Vec<Playlist>) -> Vec<String> {
    playlists.iter().map(|p| p.get_name().unwrap()).collect()
}

#[test]
fn saving_an_edit_keeps_every_identifier() {
    let mut playlists = vec![
        playlist("id1", "one", &["/a"]),
        playlist("id2", "two", &["/b"]),
        playlist("id3", "three", &[]),
    ];
    let edited = playlist("id2", "deux", &["/b", "/c"]);
    save_playlists(&mut playlists, Some(edited));
    assert_eq!(ids(&playlists), vec!["id1", "id2", "id3"]);
    assert_eq!(names(&playlists), vec!["one", "deux", "three"]);
    assert_eq!(playlists[1].get_sources(), Some(vec!["/b".to_string(), "/c".to_string()]));
    assert_eq!(playlists[0].get_sources(), Some(vec!["/a".to_string()]));
}

#[test]
fn saving_an_unknown_playlist_changes_nothing() {
    let mut playlists = vec![playlist("id1", "one", &["/a"])];
    save_playlists(&mut playlists, Some(playlist("other", "x", &[])));
    assert_eq!(ids(&playlists), vec!["id1"]);
    assert_eq!(names(&playlists), vec!["one"]);
}

#[test]
fn saving_nothing_leaves_no_entry() {
    let mut playlists = vec![playlist("id1", "one", &["/a"])];
    save_playlists(&mut playlists, None);
    assert!(playlists.is_empty());
}

#[test]
fn removing_deletes_by_identifier() {
    let mut playlists = vec![
        playlist("id1", "one", &[]),
        playlist("id2", "two", &[]),
        playlist("id1", "again", &[]),
        playlist("id3", "three", &[]),
    ];
    remove_playlist(&mut playlists, &Some(playlist("id1", "whatever", &[])));
    assert_eq!(ids(&playlists), vec!["id2", "id3"]);
}

#[test]
fn removing_nothing_leaves_no_entry() {
    let mut playlists = vec![playlist("id1", "one", &[])];
    remove_playlist(&mut playlists, &None);
    assert!(playlists.is_empty());
}

#[test]
fn adding_gives_a_fresh_sixteen_character_identifier() {
    let mut playlists = vec![playlist("id1", "one", &["/a"])];
    add_playlist(&mut playlists, "fresh".to_string());
    assert_eq!(playlists.len(), 2);
    assert_eq!(ids(&playlists)[0], "id1");
    assert_eq!(playlists[1].get_name(), Some("fresh".to_string()));
    assert!(playlists[1].is_empty());
    let id = playlists[1].get_id().unwrap();
    assert_eq!(id.chars().count(), 16);
    assert!(id.chars().all(|c| c.is_ascii_alphanumeric()));
    assert_ne!(id, "id1");
}

#[test]
fn renamed_keeps_identifier_and_sources() {
    let original = playlist("id7", "before", &["/a", "/b"]);
    let result = renamed(&Some(original), "after".to_string());
    assert_eq!(result.get_id(), Some("id7".to_string()));
    assert_eq!(result.get_name(), Some("after".to_string()));
    assert_eq!(result.get_sources(), Some(vec!["/a".to_string(), "/b".to_string()]));
}

#[test]
fn renamed_without_original_is_new() {
    let result = renamed(&None, "after".to_string());
    assert_eq!(result.get_name(), Some("after".to_string()));
    assert!(result.is_empty());
    assert_eq!(result.get_id().unwrap().chars().count(), 16);
}
