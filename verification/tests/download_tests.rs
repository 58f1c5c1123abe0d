use storify::download::{
    check_source, is_malformed_key, on_read_failure, parent_path, plan_download, plan_entry,
    DownloadStep, ReadFailure,
};
use storify::entry::StorageEntry;
use storify::error::Error;

#[test]
fn download_of_missing_prefix_is_not_found_and_plans_nothing() {
    let r = plan_download("missing/", "out", false, &Vec::new());
    assert_eq!(r, Err(Error::PathNotFound { path: "missing/".to_string() }));
    assert_eq!(
        check_source("missing/", false, 0),
        Err(Error::PathNotFound { path: "missing/".to_string() })
    );
}

#[test]
fn download_source_exists_by_stat_or_by_listing() {
    assert_eq!(check_source("p", true, 0), Ok(()));
    assert_eq!(check_source("p", false, 1), Ok(()));
    assert_eq!(plan_download("p", "out", true, &Vec::new()), Ok(Vec::new()));
}

#[test]
fn download_recreates_the_tree_locally() {
    let entries = vec![
        StorageEntry::directory("a/".to_string()),
        StorageEntry::file("a/x.txt".to_string(), 10),
        StorageEntry::directory("a/sub/".to_string()),
        StorageEntry::file("a/sub/y.txt".to_string(), 5),
    ];
    let steps = plan_download("a", "out", true, &entries).unwrap();
    assert_eq!(
        steps,
        vec![
            DownloadStep::CreateDirectory { local_path: "out/a".to_string() },
            DownloadStep::Fetch {
                remote_key: "a/x.txt".to_string(),
                local_path: "out/x.txt".to_string(),
                parent: Some("out".to_string()),
            },
            DownloadStep::CreateDirectory { local_path: "out/sub".to_string() },
            DownloadStep::Fetch {
                remote_key: "a/sub/y.txt".to_string(),
                local_path: "out/sub/y.txt".to_string(),
                parent: Some("out/sub".to_string()),
            },
        ]
    );
}

#[test]
fn download_of_single_file_keeps_its_name() {
    let entry = StorageEntry::file("a/x.txt".to_string(), 10);
    assert_eq!(
        plan_entry("a/x.txt", "out", &entry),
        DownloadStep::Fetch {
            remote_key: "a/x.txt".to_string(),
            local_path: "out/x.txt".to_string(),
            parent: Some("out".to_string()),
        }
    );
}

#[test]
fn keys_with_doubled_delimiter_are_skipped() {
    assert!(is_malformed_key("a//b"));
    assert!(is_malformed_key("//"));
    assert!(is_malformed_key("a/b//"));
    assert!(!is_malformed_key("a/b/"));
    assert!(!is_malformed_key("/"));
    assert!(!is_malformed_key(""));
    let entry = StorageEntry::file("a//x.txt".to_string(), 10);
    assert_eq!(
        plan_entry("a", "out", &entry),
        DownloadStep::SkipMalformed { key: "a//x.txt".to_string() }
    );
}

#[test]
fn vanished_object_is_skipped_other_failures_abort() {
    assert_eq!(on_read_failure(true), ReadFailure::Skip);
    assert_eq!(on_read_failure(false), ReadFailure::Abort);
}

#[test]
fn parent_of_a_local_path() {
    assert_eq!(parent_path("out/sub/y.txt"), Some("out/sub".to_string()));
    assert_eq!(parent_path("out/sub/"), Some("out".to_string()));
    assert_eq!(parent_path("/y.txt"), Some("/".to_string()));
    assert_eq!(parent_path("y.txt"), None);
    assert_eq!(parent_path(""), None);
    assert_eq!(parent_path("/"), None);
    assert_eq!(parent_path("a//b"), Some("a".to_string()));
}
