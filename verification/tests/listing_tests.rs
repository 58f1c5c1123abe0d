use storify::entry::{EntryMode, StorageEntry};
use storify::list::{entry_line, list_lines, FileInfo};
use storify::resolve::{check_directory, probe_result, source_exists, DirectoryCheck};
use storify::stat::{entry_type_label, render_meta, ObjectMeta};
use storify::storage::OutputFormat;

fn file_with_time(key: &str, size: u64, time: &str) -> StorageEntry {
    StorageEntry {
        key: key.to_string(),
        is_directory: false,
        size,
        last_modified: Some(time.to_string()),
        etag: None,
        content_type: None,
    }
}

#[test]
fn short_listing_shows_keys() {
    let entries = vec![
        StorageEntry::directory("a/".to_string()),
        StorageEntry::file("a/x.txt".to_string(), 10),
    ];
    assert_eq!(list_lines(&entries, false), vec!["a/".to_string(), "a/x.txt".to_string()]);
    assert_eq!(list_lines(&Vec::new(), true), Vec::<String>::new());
}

#[test]
fn long_listing_aligns_type_and_size() {
    let f = file_with_time("a/x.txt", 1536, "2024-01-02T03:04:05+00:00");
    assert_eq!(
        entry_line(&f, true),
        "FILE         1.5K 2024-01-02T03:04:05+00:00 a/x.txt"
    );
    let d = StorageEntry::directory("a/".to_string());
    assert_eq!(entry_line(&d, true), "DIR             - Unknown a/");
    let big = StorageEntry::file("b".to_string(), u64::MAX);
    assert_eq!(entry_line(&big, true), "FILE   16777216.0T Unknown b");
}

#[test]
fn file_info_is_taken_from_the_entry() {
    let f = file_with_time("k", 7, "t");
    let info = FileInfo::from_entry(&f);
    assert_eq!(info.path, "k");
    assert_eq!(info.size, 7);
    assert_eq!(info.modified, Some("t".to_string()));
    assert!(!info.is_dir);
    assert_eq!(info.to_line(), "FILE           7B t k");
}

#[test]
fn lookup_decides_where_it_finds_something() {
    assert_eq!(check_directory("a", Some(EntryMode::Dir)), DirectoryCheck::Directory);
    assert_eq!(check_directory("a", Some(EntryMode::File)), DirectoryCheck::NotDirectory);
    assert_eq!(check_directory("a", Some(EntryMode::Unknown)), DirectoryCheck::NotDirectory);
}

#[test]
fn failed_lookup_asks_for_a_probe_of_the_prefix() {
    assert_eq!(
        check_directory("a", None),
        DirectoryCheck::Probe { prefix: "a/".to_string() }
    );
    assert_eq!(
        check_directory("a/", None),
        DirectoryCheck::Probe { prefix: "a/".to_string() }
    );
    assert!(probe_result(Some(1)));
    assert!(!probe_result(Some(0)));
    assert!(!probe_result(None));
}

#[test]
fn source_exists_as_object_or_directory() {
    assert!(source_exists(Some(EntryMode::File), false));
    assert!(source_exists(None, true));
    assert!(!source_exists(None, false));
}

#[test]
fn mode_labels() {
    assert_eq!(entry_type_label(EntryMode::File), "file");
    assert_eq!(entry_type_label(EntryMode::Dir), "dir");
    assert_eq!(entry_type_label(EntryMode::Unknown), "other");
}

#[test]
fn metadata_is_shown_as_key_value_lines() {
    let meta = ObjectMeta::from_stat(
        "a/x.txt",
        EntryMode::File,
        10,
        Some("2024-01-02 03:04:05 UTC".to_string()),
        Some("abc".to_string()),
        Some("text/plain".to_string()),
    );
    let want = vec![
        "path=a/x.txt".to_string(),
        "type=file".to_string(),
        "size=10".to_string(),
        "last_modified=2024-01-02 03:04:05 UTC".to_string(),
        "etag=\"abc\"".to_string(),
        "content_type=text/plain".to_string(),
    ];
    assert_eq!(render_meta(&meta, OutputFormat::Human), Some(want.clone()));
    assert_eq!(render_meta(&meta, OutputFormat::Raw), Some(want));
    assert_eq!(render_meta(&meta, OutputFormat::Json), None);
}

#[test]
fn unknown_metadata_is_left_out() {
    let meta = ObjectMeta::from_stat("d/", EntryMode::Dir, 0, None, None, None);
    assert_eq!(
        render_meta(&meta, OutputFormat::Raw),
        Some(vec!["path=d/".to_string(), "type=dir".to_string(), "size=0".to_string()])
    );
}
