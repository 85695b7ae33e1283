use hyprwall::scanner::{
    choose_random, file_extension, file_name, matches_search, name_is_animated, name_is_static,
    scan_folder, scan_listing, DirListing, MediaEntry,
};

fn listing(entries: &[(&str, bool)]) -> Vec<DirListing> {
    entries
        .iter()
        .map(|(p, f)| DirListing { path: p.to_string(), is_file: *f })
        .collect()
}

#[test]
fn scan_keeps_images_in_listing_order() {
    // Folder [a.png, b.txt, c.jpg, d.jpeg] scans to [a.png, c.jpg, d.jpeg].
    let entries = listing(&[("a.png", true), ("b.txt", true), ("c.jpg", true), ("d.jpeg", true)]);
    let q = scan_folder(&entries, false);
    let paths: Vec<&str> = q.iter().map(|m| m.path.as_str()).collect();
    assert_eq!(paths, vec!["a.png", "c.jpg", "d.jpeg"]);
    assert!(q.iter().all(|m| !m.animated));
}

#[test]
fn scan_skips_directories() {
    let entries = listing(&[("x.png", false), ("y.png", true)]);
    let q = scan_folder(&entries, false);
    let paths: Vec<&str> = q.iter().map(|m| m.path.as_str()).collect();
    assert_eq!(paths, vec!["y.png"]);
}

#[test]
fn scan_extension_is_case_insensitive() {
    let entries = listing(&[("A.PNG", true), ("b.Jpg", true), ("c.JPEG", true), ("d.PnGx", true)]);
    let q = scan_folder(&entries, false);
    assert_eq!(q.len(), 3);
}

#[test]
fn scan_animated_only_when_included() {
    let entries = listing(&[("a.gif", true), ("b.png", true)]);
    let without = scan_folder(&entries, false);
    assert_eq!(without.len(), 1);
    assert_eq!(without[0].path, "b.png");
    let with = scan_folder(&entries, true);
    assert_eq!(with.len(), 2);
    assert!(with[0].animated);
    assert!(!with[1].animated);
}

#[test]
fn scan_empty_folder_is_empty() {
    let q = scan_folder(&Vec::new(), true);
    assert!(q.is_empty());
}

#[test]
fn unreadable_folder_is_an_error_not_empty() {
    assert!(scan_listing(None, false).is_err());
    let entries = listing(&[("a.png", true)]);
    let q = scan_listing(Some(&entries), false).unwrap();
    assert_eq!(q.len(), 1);
}

#[test]
fn extension_of_path_ignores_directory_dots() {
    assert_eq!(file_extension("/home/u.d/pic.png"), Some("png"));
    assert_eq!(file_extension("/home/u.d/noext"), None);
    assert_eq!(file_extension("/home/u/.hidden"), None);
    assert_eq!(file_extension("archive.tar.gz"), Some("gz"));
    assert_eq!(file_extension("plain"), None);
}

#[test]
fn static_and_animated_names() {
    assert!(name_is_static("a.png"));
    assert!(name_is_static("b.JPeG"));
    assert!(!name_is_static("c.gif"));
    assert!(name_is_animated("c.GIF"));
    assert!(!name_is_animated("a.png"));
    assert!(!name_is_static("png"));
}

#[test]
fn file_name_is_the_final_component() {
    assert_eq!(file_name("/w/papers/sunset.png"), "sunset.png");
    assert_eq!(file_name("plain.png"), "plain.png");
    assert_eq!(file_name("/w/dir/"), "");
}

#[test]
fn search_filter_matches_file_name_case_insensitively() {
    assert!(matches_search("/w/Sunset-Beach.png", "beach"));
    assert!(matches_search("/w/Sunset-Beach.png", "SUNSET"));
    assert!(matches_search("/w/Sunset-Beach.png", ""));
    assert!(!matches_search("/w/Sunset-Beach.png", "forest"));
    assert!(!matches_search("/Forest/a.png", "forest"));
}

#[test]
fn random_choice_is_some_in_range_iff_nonempty() {
    let empty: Vec<MediaEntry> = Vec::new();
    assert_eq!(choose_random(&empty), None);
    let one = vec![MediaEntry { path: "a.png".to_string(), animated: false }];
    assert_eq!(choose_random(&one), Some(0));
    let many: Vec<MediaEntry> = (0..5)
        .map(|i| MediaEntry { path: format!("{i}.png"), animated: false })
        .collect();
    for _ in 0..20 {
        let i = choose_random(&many).unwrap();
        assert!(i < 5);
    }
}
