use hyprwall::config::{config_get, config_set, default_config, join_lines, split_lines};

#[test]
fn split_on_newlines_without_trailing_empty() {
    let lines = split_lines("folder = /w\nbackend = swww\n");
    assert_eq!(lines, vec!["folder = /w".to_string(), "backend = swww".to_string()]);
    assert_eq!(split_lines(""), Vec::<String>::new());
    assert_eq!(split_lines("one"), vec!["one".to_string()]);
    assert_eq!(split_lines("\n\n"), vec!["".to_string(), "".to_string()]);
}

#[test]
fn join_with_single_newlines() {
    let lines = vec!["a".to_string(), "b".to_string(), "c".to_string()];
    assert_eq!(join_lines(&lines), "a\nb\nc");
    assert_eq!(join_lines(&Vec::new()), "");
    assert_eq!(join_lines(&vec!["x".to_string()]), "x");
}

#[test]
fn get_reads_first_matching_line() {
    let lines = split_lines("[Settings]\nfolder = /w/papers\nbackend = feh\n");
    assert_eq!(config_get(&lines, "folder"), Some("/w/papers".to_string()));
    assert_eq!(config_get(&lines, "backend"), Some("feh".to_string()));
    assert_eq!(config_get(&lines, "last_wallpaper"), None);
}

#[test]
fn get_requires_the_exact_key_prefix() {
    let lines = vec!["folders = nope".to_string(), "folder=/tight".to_string()];
    assert_eq!(config_get(&lines, "folder"), None);
}

#[test]
fn set_rewrites_existing_line_in_place() {
    let mut lines = split_lines("[Settings]\nbackend = feh\nfolder = /old\n");
    config_set(&mut lines, "folder", "/new");
    assert_eq!(lines[0], "[Settings]");
    assert_eq!(lines[1], "backend = feh");
    assert_eq!(lines[2], "folder = /new");
    assert_eq!(lines.len(), 3);
}

#[test]
fn set_appends_missing_key() {
    let mut lines = split_lines("[Settings]\n");
    config_set(&mut lines, "last_wallpaper", "/w/a.png");
    assert_eq!(lines.len(), 2);
    assert_eq!(lines[1], "last_wallpaper = /w/a.png");
}

#[test]
fn set_then_get_round_trips() {
    let mut lines = Vec::new();
    config_set(&mut lines, "backend", "swaybg");
    assert_eq!(config_get(&lines, "backend"), Some("swaybg".to_string()));
    config_set(&mut lines, "backend", "swww");
    assert_eq!(config_get(&lines, "backend"), Some("swww".to_string()));
    assert_eq!(lines.len(), 1);
}

#[test]
fn default_config_text() {
    assert_eq!(
        default_config(),
        "[Settings]\nfolder = none\nbackend = none\nlast_wallpaper = none\n"
    );
    let lines = split_lines(&default_config());
    assert_eq!(config_get(&lines, "folder"), Some("none".to_string()));
    assert_eq!(config_get(&lines, "backend"), Some("none".to_string()));
    assert_eq!(config_get(&lines, "last_wallpaper"), Some("none".to_string()));
}
