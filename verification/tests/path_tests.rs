use storify::path::{
    basename, build_remote_path, ensure_trailing_slash, get_root_relative_path, is_directory_hint,
    normalize_path,
};

#[test]
fn normalize_trims_both_ends() {
    assert_eq!(normalize_path("/a/b/"), "a/b");
    assert_eq!(normalize_path("///a//b///"), "a//b");
    assert_eq!(normalize_path("a"), "a");
    assert_eq!(normalize_path(""), "");
    assert_eq!(normalize_path("////"), "");
}

#[test]
fn normalize_is_idempotent_on_samples() {
    for p in ["", "/", "a", "/a/", "//a/b//", "a/b/c", "日本/語/"] {
        let once = normalize_path(p);
        let twice = normalize_path(&once);
        assert_eq!(once, twice);
    }
}

#[test]
fn directory_hint_is_trailing_delimiter() {
    assert!(is_directory_hint("a/"));
    assert!(is_directory_hint("/"));
    assert!(!is_directory_hint("a"));
    assert!(!is_directory_hint(""));
    assert!(!is_directory_hint("a/b"));
}

#[test]
fn join_uses_exactly_one_delimiter() {
    assert_eq!(build_remote_path("a", "b"), "a/b");
    assert_eq!(build_remote_path("a/", "b"), "a/b");
    assert_eq!(build_remote_path("a//", "b"), "a/b");
    assert_eq!(build_remote_path("a", "/b"), "a/b");
    assert_eq!(build_remote_path("a/b", "c/d.txt"), "a/b/c/d.txt");
    assert_eq!(build_remote_path("/", "b"), "/b");
    assert_eq!(build_remote_path("a", ""), "a/");
}

#[test]
fn join_onto_empty_base_is_the_name() {
    assert_eq!(build_remote_path("", "b"), "b");
    assert_eq!(build_remote_path("", "b/c"), "b/c");
    assert_eq!(build_remote_path("", ""), "");
}

#[test]
fn basename_is_last_component() {
    assert_eq!(basename("a/b/c.txt"), "c.txt");
    assert_eq!(basename("/a/b/"), "b");
    assert_eq!(basename("a"), "a");
    assert_eq!(basename("/a"), "a");
    assert_eq!(basename("a/b///"), "b");
    assert_eq!(basename(""), "");
    assert_eq!(basename("/"), "");
    assert_eq!(basename("ü/ß"), "ß");
}

#[test]
fn trailing_slash_is_added_once() {
    assert_eq!(ensure_trailing_slash("a"), "a/");
    assert_eq!(ensure_trailing_slash("a/"), "a/");
    assert_eq!(ensure_trailing_slash(""), "/");
    assert_eq!(ensure_trailing_slash("a/b"), "a/b/");
}

#[test]
fn relative_path_below_base() {
    assert_eq!(get_root_relative_path("a/x.txt", "a"), "x.txt");
    assert_eq!(get_root_relative_path("a/sub/y.txt", "a"), "sub/y.txt");
    assert_eq!(get_root_relative_path("a/sub/y.txt", "a/"), "sub/y.txt");
    assert_eq!(get_root_relative_path("/a/sub/y.txt", "a"), "sub/y.txt");
    assert_eq!(get_root_relative_path("a/sub/", "a"), "sub");
    assert_eq!(get_root_relative_path("a/b", ""), "a/b");
    assert_eq!(get_root_relative_path("a/b", "/"), "a/b");
}

#[test]
fn relative_path_of_key_to_itself_is_its_basename() {
    assert_eq!(get_root_relative_path("a/x.txt", "a/x.txt"), "x.txt");
    assert_eq!(get_root_relative_path("a/", "a"), "a");
    assert_eq!(get_root_relative_path("/a/b", "a/b/"), "b");
    assert_eq!(get_root_relative_path("x", "x"), "x");
}

#[test]
fn relative_path_outside_base_falls_back_to_basename() {
    assert_eq!(get_root_relative_path("b/x.txt", "a"), "x.txt");
    assert_eq!(get_root_relative_path("ab/x.txt", "a"), "x.txt");
    assert_eq!(get_root_relative_path("a", "a/b"), "a");
}

#[test]
fn relative_path_is_empty_only_for_empty_keys() {
    assert_eq!(get_root_relative_path("", ""), "");
    assert_eq!(get_root_relative_path("/", "a"), "");
    for (full, base) in [("a/b", "a"), ("a", "a"), ("a/b/c", "a/b"), ("q", "z")] {
        assert!(!get_root_relative_path(full, base).is_empty());
    }
}
