use rrm::paths::{basename, expand_tilde, join_path};
use rrm::store::{TrashStore, locate_store};

#[test]
fn basename_of_plain_paths() {
    assert_eq!(basename("/a/b/c.txt").unwrap(), "c.txt");
    assert_eq!(basename("c.txt").unwrap(), "c.txt");
    assert_eq!(basename("a/b").unwrap(), "b");
}

#[test]
fn basename_ignores_trailing_slashes() {
    assert_eq!(basename("/a/b/").unwrap(), "b");
    assert_eq!(basename("a/b///").unwrap(), "b");
}

#[test]
fn basename_missing_component() {
    assert!(basename("/").is_none());
    assert!(basename("").is_none());
    assert!(basename(".").is_none());
    assert!(basename("..").is_none());
    assert!(basename("/a/..").is_none());
}

#[test]
fn tilde_expansion() {
    assert_eq!(expand_tilde("~/docs", "/home/u"), "/home/u/docs");
    assert_eq!(expand_tilde("~/", "/home/u"), "/home/u/");
    assert_eq!(expand_tilde("plain.txt", "/home/u"), "plain.txt");
    assert_eq!(expand_tilde("/abs/p", "/home/u"), "/abs/p");
}

#[test]
fn tilde_expansion_odd_homes() {
    // a home that already ends in a slash gets no second separator
    assert_eq!(expand_tilde("~/d", "/home/u/"), "/home/u/d");
    // an absolute remainder stands alone, as a path join would leave it
    assert_eq!(expand_tilde("~//etc", "/home/u"), "/etc");
}

#[test]
fn join_path_inserts_separator() {
    assert_eq!(join_path("/t/files", "c.txt"), "/t/files/c.txt");
}

#[test]
fn store_roots_follow_the_desktop_layout() {
    let s = TrashStore::from_home("/home/u");
    assert_eq!(s.files_root, "/home/u/.local/share/Trash/files");
    assert_eq!(s.info_root, "/home/u/.local/share/Trash/info");
}

#[test]
fn locate_store_finds_a_home() {
    let s = locate_store().expect("a home directory should be resolvable here");
    assert!(s.files_root.ends_with("/.local/share/Trash/files"));
    assert!(s.info_root.ends_with("/.local/share/Trash/info"));
    assert!(!s.files_root.starts_with("/.local"));
}
