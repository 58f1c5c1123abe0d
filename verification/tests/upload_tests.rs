use storify::error::Error;
use storify::upload::{plan_entry, plan_upload, LocalKind, UploadPlan, UploadStep};

#[test]
fn upload_of_a_file_appends_its_name() {
    assert_eq!(
        plan_upload("/tmp/data/x.txt", "backup", LocalKind::File, false),
        Ok(UploadPlan::File { remote_path: "backup/x.txt".to_string() })
    );
    assert_eq!(
        plan_upload("x.txt", "backup/", LocalKind::File, true),
        Ok(UploadPlan::File { remote_path: "backup/x.txt".to_string() })
    );
}

#[test]
fn upload_of_a_directory_needs_the_recursive_flag() {
    assert_eq!(
        plan_upload("/tmp/data", "backup", LocalKind::Directory, false),
        Err(Error::DirectoryUploadNotRecursive)
    );
    assert_eq!(
        plan_upload("/tmp/data", "backup", LocalKind::Directory, true),
        Ok(UploadPlan::Tree { remote_root: "backup".to_string() })
    );
}

#[test]
fn upload_of_a_missing_path_is_not_found() {
    assert_eq!(
        plan_upload("/tmp/nope", "backup", LocalKind::Missing, true),
        Err(Error::PathNotFound { path: "/tmp/nope".to_string() })
    );
}

#[test]
fn upload_of_something_else_sends_nothing() {
    assert_eq!(plan_upload("/dev/null", "backup", LocalKind::Other, true), Ok(UploadPlan::Nothing));
}

#[test]
fn upload_entries_go_below_their_directory() {
    assert_eq!(
        plan_entry("backup", "sub", true),
        UploadStep::Descend { remote_path: "backup/sub".to_string() }
    );
    assert_eq!(
        plan_entry("backup/sub", "y.txt", false),
        UploadStep::Send { remote_path: "backup/sub/y.txt".to_string() }
    );
}
