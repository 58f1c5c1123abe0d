use storify::error::Error;
use storify::text::{contains_text, decimal_string, join_first, lowercase_equals, pad_left, pad_right};

fn io(message: &str) -> Box<Error> {
    Box::new(Error::Io { message: message.to_string() })
}

#[test]
fn messages_of_plain_failures() {
    assert_eq!(
        Error::MissingEnvVar { key: "A or B".to_string() }.describe(),
        "Environment variable 'A or B' is required but not found"
    );
    assert_eq!(
        Error::UnsupportedProvider { provider: "x".to_string() }.describe(),
        "Unsupported storage provider: x. Allowed: 'oss' | 's3' | 'minio' | 'fs'"
    );
    assert_eq!(
        Error::PathNotFound { path: "p".to_string() }.describe(),
        "Path does not exist: p"
    );
    assert_eq!(Error::InvalidPath { path: "p".to_string() }.describe(), "Invalid path: p");
    assert_eq!(
        Error::DirectoryDeletionNotRecursive { path: "d".to_string() }.describe(),
        "Cannot delete directory without -R flag: d"
    );
    assert_eq!(Error::DirectoryUploadNotRecursive.describe(), "Use -R to upload directories");
    assert_eq!(
        Error::PartialDeletion { failed_paths: vec!["a".to_string(), "b".to_string()] }.describe(),
        "Partial deletion failure: 2 path(s) failed to delete"
    );
    assert_eq!(
        Error::OpenDal { not_found: true, message: "gone".to_string() }.describe(),
        "OpenDAL error: gone"
    );
    assert_eq!(Error::Io { message: "disk".to_string() }.describe(), "IO error: disk");
}

#[test]
fn messages_of_wrapped_failures_end_with_their_cause() {
    assert_eq!(
        Error::DeleteFailed { paths: "a,b".to_string(), recursive: true, source: io("x") }
            .describe(),
        "Failed to delete 'a,b' (recursive: true): IO error: x"
    );
    assert_eq!(
        Error::DeleteFailed { paths: "a".to_string(), recursive: false, source: io("x") }
            .describe(),
        "Failed to delete 'a' (recursive: false): IO error: x"
    );
    assert_eq!(
        Error::DownloadFailed {
            remote_path: "r".to_string(),
            local_path: "l".to_string(),
            source: io("x"),
        }
        .describe(),
        "Failed to download 'r' to 'l': IO error: x"
    );
    assert_eq!(
        Error::UploadFailed {
            local_path: "l".to_string(),
            remote_path: "r".to_string(),
            source: io("x"),
        }
        .describe(),
        "Failed to upload 'l' to 'r': IO error: x"
    );
    assert_eq!(
        Error::CopyFailed { src_path: "s".to_string(), dest_path: "d".to_string(), source: io("x") }
            .describe(),
        "Failed to copy 's' to 'd': IO error: x"
    );
    assert_eq!(
        Error::ListDirectoryFailed { path: "p".to_string(), source: io("x") }.describe(),
        "Failed to list directory 'p': IO error: x"
    );
    assert_eq!(
        Error::DiskUsageFailed { path: "p".to_string(), source: io("x") }.describe(),
        "Failed to get disk usage for 'p': IO error: x"
    );
    assert_eq!(
        Error::DirectoryCreationFailed { path: "p".to_string(), source: io("x") }.describe(),
        "Failed to create directory 'p': IO error: x"
    );
    assert_eq!(
        Error::CatFailed {
            path: "p".to_string(),
            source: Box::new(Error::InvalidPath { path: "q".to_string() }),
        }
        .describe(),
        "Failed to read file 'p': Invalid path: q"
    );
}

#[test]
fn backend_absence_is_recognised() {
    assert!(Error::OpenDal { not_found: true, message: String::new() }.is_not_found());
    assert!(!Error::OpenDal { not_found: false, message: String::new() }.is_not_found());
    assert!(!Error::PathNotFound { path: "p".to_string() }.is_not_found());
}

#[test]
fn numbers_are_written_in_decimal() {
    assert_eq!(decimal_string(0), "0");
    assert_eq!(decimal_string(9), "9");
    assert_eq!(decimal_string(10), "10");
    assert_eq!(decimal_string(1234567890), "1234567890");
    assert_eq!(decimal_string(u128::MAX), "340282366920938463463374607431768211455");
}

#[test]
fn padding_counts_characters() {
    assert_eq!(pad_right("DIR", 6), "DIR   ");
    assert_eq!(pad_right("LONGER-THAN", 6), "LONGER-THAN");
    assert_eq!(pad_left("1.5K", 10), "      1.5K");
    assert_eq!(pad_left("äö", 4), "  äö");
    assert_eq!(pad_left("", 0), "");
}

#[test]
fn joining_takes_the_first_parts() {
    let parts: Vec<String> = vec!["a".to_string(), "b".to_string(), "c".to_string()];
    assert_eq!(join_first(&parts, 2, ","), "a,b");
    assert_eq!(join_first(&parts, 3, " or "), "a or b or c");
    assert_eq!(join_first(&parts, 9, ","), "a,b,c");
    assert_eq!(join_first(&parts, 0, ","), "");
    assert_eq!(join_first(&parts, 1, ","), "a");
}

#[test]
fn substring_search() {
    assert!(contains_text("it already exists here", "already exists"));
    assert!(contains_text("already exists", "already exists"));
    assert!(contains_text("abc", ""));
    assert!(contains_text("", ""));
    assert!(contains_text("xxab", "ab"));
    assert!(!contains_text("already exist", "already exists"));
    assert!(!contains_text("", "a"));
    assert!(!contains_text("aab", "aba"));
}

#[test]
fn comparison_ignores_ascii_case_only() {
    assert!(lowercase_equals("MinIO", "minio"));
    assert!(lowercase_equals("s3", "s3"));
    assert!(!lowercase_equals("s3 ", "s3"));
    assert!(!lowercase_equals("ÄB", "äb"));
    assert!(!lowercase_equals("\u{212a}", "k"));
}
