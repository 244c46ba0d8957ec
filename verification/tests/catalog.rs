use comrad::utils::catalog::{load_sources, Browser, Entry, SCAN_DEPTH};

fn file(path: &str) -> Entry {
    Entry { path: path.to_string(), is_file: true, children: Vec::new() }
}

fn folder(path: &str, children: Vec<Entry>) -> Entry {
    Entry { path: path.to_string(), is_file: false, children }
}

fn strings(items: &[&str]) -> Vec<String> {
    items.iter().map(|item| item.to_string()).collect()
}

#[test]
fn scan_depth_is_three_levels() {
    assert_eq!(SCAN_DEPTH, 3);
}

#[test]
fn load_sources_of_empty_listing() {
    let sources = load_sources(&Vec::new());
    assert!(sources.is_empty());
    assert_eq!(sources.get_name(), Some(String::new()));
    assert_eq!(sources.get_id().unwrap().chars().count(), 16);
}

#[test]
fn load_sources_takes_files_in_listing_order() {
    let sources = load_sources(&vec![file("/m/a.mp3"), file("/m/b.mp3")]);
    assert_eq!(sources.get_sources(), Some(strings(&["/m/a.mp3", "/m/b.mp3"])));
}

#[test]
fn load_sources_puts_folder_files_in_place_of_folder() {
    let listing = vec![
        file("/m/a.mp3"),
        folder("/m/b", vec![file("/m/b/1.mp3"), folder("/m/b/c", vec![file("/m/b/c/x.mp3")]), file("/m/b/2.mp3")]),
        file("/m/z.mp3"),
    ];
    let sources = load_sources(&listing);
    assert_eq!(
        sources.get_sources(),
        Some(strings(&["/m/a.mp3", "/m/b/1.mp3", "/m/b/c/x.mp3", "/m/b/2.mp3", "/m/z.mp3"]))
    );
}

#[test]
fn load_sources_stops_at_the_third_level() {
    let deep = folder("/m/a/b/c", vec![file("/m/a/b/c/too_deep.mp3")]);
    let listing = vec![folder("/m/a", vec![folder("/m/a/b", vec![file("/m/a/b/ok.mp3"), deep])])];
    let sources = load_sources(&listing);
    assert_eq!(sources.get_sources(), Some(strings(&["/m/a/b/ok.mp3"])));
}

#[test]
fn load_sources_passes_over_empty_folders() {
    let listing = vec![folder("/m/a", Vec::new()), file("/m/b.mp3")];
    assert_eq!(load_sources(&listing).get_sources(), Some(strings(&["/m/b.mp3"])));
}

#[test]
fn new_browser_shows_the_chosen_directory() {
    let browser = Browser::new("/music".to_string());
    assert_eq!(browser.dir(), "/music");
    assert_eq!(browser.path(), "/music");
    assert!(browser.folders().is_empty());
    assert!(!browser.can_go_back());
    assert!(!browser.can_go_dir());
}

#[test]
fn enter_remembers_the_folder() {
    let mut browser = Browser::new("/music".to_string());
    browser.enter("/music/a".to_string());
    browser.enter("/music/a/b".to_string());
    assert_eq!(browser.path(), "/music/a/b");
    assert_eq!(browser.folders(), strings(&["/music/a", "/music/a/b"]));
    assert!(browser.can_go_back());
    assert!(browser.can_go_dir());
}

#[test]
fn enter_the_chosen_directory_is_not_remembered() {
    let mut browser = Browser::new("/music".to_string());
    browser.enter("/music".to_string());
    assert_eq!(browser.path(), "/music");
    assert!(browser.folders().is_empty());
}

#[test]
fn back_from_shown_folder_goes_to_the_one_before() {
    let mut browser = Browser::new("/music".to_string());
    browser.enter("/music/a".to_string());
    browser.enter("/music/a/b".to_string());
    browser.back();
    assert_eq!(browser.path(), "/music/a");
    assert_eq!(browser.folders(), strings(&["/music/a"]));
}

#[test]
fn back_from_only_folder_goes_to_the_chosen_directory() {
    let mut browser = Browser::new("/music".to_string());
    browser.enter("/music/a".to_string());
    browser.back();
    assert_eq!(browser.path(), "/music");
    assert!(browser.folders().is_empty());
}

#[test]
fn back_without_folders_shows_the_chosen_directory() {
    let mut browser = Browser::new("/music".to_string());
    browser.back();
    assert_eq!(browser.path(), "/music");
    assert!(browser.folders().is_empty());
}

#[test]
fn back_when_another_folder_is_shown_goes_to_the_chosen_directory() {
    let mut browser = Browser::new("/music".to_string());
    browser.enter("/music/a".to_string());
    browser.enter("/music/a/b".to_string());
    browser.back();
    browser.back();
    assert_eq!(browser.path(), "/music");
    assert!(browser.folders().is_empty());
    browser.enter("/music/a".to_string());
    browser.enter("/music/c".to_string());
    browser.change_dir("/other".to_string());
    browser.back();
    assert_eq!(browser.path(), "/other");
    assert_eq!(browser.folders(), strings(&["/music/a"]));
}

#[test]
fn home_returns_and_forgets_the_folders() {
    let mut browser = Browser::new("/music".to_string());
    browser.enter("/music/a".to_string());
    browser.home();
    assert_eq!(browser.path(), "/music");
    assert!(browser.folders().is_empty());
}

#[test]
fn home_does_nothing_at_the_root() {
    let mut browser = Browser::new("/".to_string());
    browser.enter("/music".to_string());
    browser.home();
    assert_eq!(browser.path(), "/music");
    assert_eq!(browser.folders(), strings(&["/music"]));
}

#[test]
fn change_dir_keeps_the_folders() {
    let mut browser = Browser::new("/music".to_string());
    browser.enter("/music/a".to_string());
    browser.change_dir("/other".to_string());
    assert_eq!(browser.dir(), "/other");
    assert_eq!(browser.path(), "/other");
    assert_eq!(browser.folders(), strings(&["/music/a"]));
}
