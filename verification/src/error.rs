//! The failures the library reports.

use vstd::prelude::*;
use vstd::string::*;
use crate::text::{decimal, decimal_string, first_parts, join_first, joined};

verus! {

/// What went wrong, with the paths it concerns. A failure of a whole
/// operation wraps the failure that caused it.
#[derive(Debug, PartialEq, Eq)]
pub enum Error {
    /// A required environment variable is not set under any of its names.
    MissingEnvVar { key: String },
    /// The storage provider's name is not one the tool knows.
    UnsupportedProvider { provider: String },
    /// A path that had to exist does not.
    PathNotFound { path: String },
    /// A path is ambiguous, or names nothing where a file or directory was
    /// required.
    InvalidPath { path: String },
    /// A directory was to be deleted without the recursive flag.
    DirectoryDeletionNotRecursive { path: String },
    /// A directory was to be uploaded without the recursive flag.
    DirectoryUploadNotRecursive,
    /// Some of several paths could not be deleted; the others were.
    PartialDeletion { failed_paths: Vec<String> },
    /// Deleting failed.
    DeleteFailed { paths: String, recursive: bool, source: Box<Error> },
    /// Downloading failed.
    DownloadFailed { remote_path: String, local_path: String, source: Box<Error> },
    /// Uploading failed.
    UploadFailed { local_path: String, remote_path: String, source: Box<Error> },
    /// Copying or moving failed.
    CopyFailed { src_path: String, dest_path: String, source: Box<Error> },
    /// Listing failed.
    ListDirectoryFailed { path: String, source: Box<Error> },
    /// Computing the disk usage failed.
    DiskUsageFailed { path: String, source: Box<Error> },
    /// Creating a directory failed.
    DirectoryCreationFailed { path: String, source: Box<Error> },
    /// Reading a file for display failed.
    CatFailed { path: String, source: Box<Error> },
    /// The storage backend reported a failure; `not_found` tells whether it
    /// was the absence of the key.
    OpenDal { not_found: bool, message: String },
    /// The local system reported an I/O failure.
    Io { message: String },
}

/// The mathematical value of an [`Error`]: the same shape, over sequences of
/// characters.
pub enum ErrorView {
    MissingEnvVar { key: Seq<char> },
    UnsupportedProvider { provider: Seq<char> },
    PathNotFound { path: Seq<char> },
    InvalidPath { path: Seq<char> },
    DirectoryDeletionNotRecursive { path: Seq<char> },
    DirectoryUploadNotRecursive,
    PartialDeletion { failed_paths: Seq<Seq<char>> },
    DeleteFailed { paths: Seq<char>, recursive: bool, source: Box<ErrorView> },
    DownloadFailed { remote_path: Seq<char>, local_path: Seq<char>, source: Box<ErrorView> },
    UploadFailed { local_path: Seq<char>, remote_path: Seq<char>, source: Box<ErrorView> },
    CopyFailed { src_path: Seq<char>, dest_path: Seq<char>, source: Box<ErrorView> },
    ListDirectoryFailed { path: Seq<char>, source: Box<ErrorView> },
    DiskUsageFailed { path: Seq<char>, source: Box<ErrorView> },
    DirectoryCreationFailed { path: Seq<char>, source: Box<ErrorView> },
    CatFailed { path: Seq<char>, source: Box<ErrorView> },
    OpenDal { not_found: bool, message: Seq<char> },
    Io { message: Seq<char> },
}

/// The contents of a list of strings.
pub open spec fn string_views(v: Seq<String>) -> Seq<Seq<char>> {
    Seq::new(v.len(), |i: int| v[i]@)
}

/// The value of an error.
pub open spec fn error_view(e: Error) -> ErrorView
    decreases e,
{
    match e {
        Error::MissingEnvVar { key } => ErrorView::MissingEnvVar { key: key@ },
        Error::UnsupportedProvider { provider } => ErrorView::UnsupportedProvider {
            provider: provider@,
        },
        Error::PathNotFound { path } => ErrorView::PathNotFound { path: path@ },
        Error::InvalidPath { path } => ErrorView::InvalidPath { path: path@ },
        Error::DirectoryDeletionNotRecursive { path } => ErrorView::DirectoryDeletionNotRecursive {
            path: path@,
        },
        Error::DirectoryUploadNotRecursive => ErrorView::DirectoryUploadNotRecursive,
        Error::PartialDeletion { failed_paths } => ErrorView::PartialDeletion {
            failed_paths: string_views(failed_paths@),
        },
        Error::DeleteFailed { paths, recursive, source } => ErrorView::DeleteFailed {
            paths: paths@,
            recursive,
            source: Box::new(error_view(*source)),
        },
        Error::DownloadFailed { remote_path, local_path, source } => ErrorView::DownloadFailed {
            remote_path: remote_path@,
            local_path: local_path@,
            source: Box::new(error_view(*source)),
        },
        Error::UploadFailed { local_path, remote_path, source } => ErrorView::UploadFailed {
            local_path: local_path@,
            remote_path: remote_path@,
            source: Box::new(error_view(*source)),
        },
        Error::CopyFailed { src_path, dest_path, source } => ErrorView::CopyFailed {
            src_path: src_path@,
            dest_path: dest_path@,
            source: Box::new(error_view(*source)),
        },
        Error::ListDirectoryFailed { path, source } => ErrorView::ListDirectoryFailed {
            path: path@,
            source: Box::new(error_view(*source)),
        },
        Error::DiskUsageFailed { path, source } => ErrorView::DiskUsageFailed {
            path: path@,
            source: Box::new(error_view(*source)),
        },
        Error::DirectoryCreationFailed { path, source } => ErrorView::DirectoryCreationFailed {
            path: path@,
            source: Box::new(error_view(*source)),
        },
        Error::CatFailed { path, source } => ErrorView::CatFailed {
            path: path@,
            source: Box::new(error_view(*source)),
        },
        Error::OpenDal { not_found, message } => ErrorView::OpenDal { not_found, message: message@ },
        Error::Io { message } => ErrorView::Io { message: message@ },
    }
}

impl View for Error {
    type V = ErrorView;

    open spec fn view(&self) -> ErrorView {
        error_view(*self)
    }
}

/// Three texts around two values: `a`, `x`, `b`, `y`, `c`.
pub open spec fn framed(a: Seq<char>, x: Seq<char>, b: Seq<char>, y: Seq<char>, c: Seq<char>) -> Seq<
    char,
> {
    a + x + b + y + c
}

/// The message of a failure, for people. The message of a wrapped failure
/// ends with the message of its cause.
pub open spec fn message_of(e: ErrorView) -> Seq<char>
    decreases e,
{
    match e {
        ErrorView::MissingEnvVar { key } => "Environment variable '"@ + key
            + "' is required but not found"@,
        ErrorView::UnsupportedProvider { provider } => "Unsupported storage provider: "@ + provider
            + ". Allowed: 'oss' | 's3' | 'minio' | 'fs'"@,
        ErrorView::PathNotFound { path } => "Path does not exist: "@ + path,
        ErrorView::InvalidPath { path } => "Invalid path: "@ + path,
        ErrorView::DirectoryDeletionNotRecursive { path } => "Cannot delete directory without -R flag: "@
            + path,
        ErrorView::DirectoryUploadNotRecursive => "Use -R to upload directories"@,
        ErrorView::PartialDeletion { failed_paths } => "Partial deletion failure: "@ + decimal(
            failed_paths.len(),
        ) + " path(s) failed to delete"@,
        ErrorView::DeleteFailed { paths, recursive, source } => framed(
            "Failed to delete '"@,
            paths,
            "' (recursive: "@,
            if recursive {
                "true"@
            } else {
                "false"@
            },
            "): "@,
        ) + message_of(*source),
        ErrorView::DownloadFailed { remote_path, local_path, source } => framed(
            "Failed to download '"@,
            remote_path,
            "' to '"@,
            local_path,
            "': "@,
        ) + message_of(*source),
        ErrorView::UploadFailed { local_path, remote_path, source } => framed(
            "Failed to upload '"@,
            local_path,
            "' to '"@,
            remote_path,
            "': "@,
        ) + message_of(*source),
        ErrorView::CopyFailed { src_path, dest_path, source } => framed(
            "Failed to copy '"@,
            src_path,
            "' to '"@,
            dest_path,
            "': "@,
        ) + message_of(*source),
        ErrorView::ListDirectoryFailed { path, source } => "Failed to list directory '"@ + path
            + "': "@ + message_of(*source),
        ErrorView::DiskUsageFailed { path, source } => "Failed to get disk usage for '"@ + path
            + "': "@ + message_of(*source),
        ErrorView::DirectoryCreationFailed { path, source } => "Failed to create directory '"@
            + path + "': "@ + message_of(*source),
        ErrorView::CatFailed { path, source } => "Failed to read file '"@ + path + "': "@
            + message_of(*source),
        ErrorView::OpenDal { not_found, message } => "OpenDAL error: "@ + message,
        ErrorView::Io { message } => "IO error: "@ + message,
    }
}

/// The paths of a deletion as they appear in its failure: the first five,
/// separated by commas.
pub open spec fn path_summary(paths: Seq<Seq<char>>) -> Seq<char> {
    if paths.len() <= 5 {
        joined(paths, ","@)
    } else {
        joined(paths.take(5), ","@)
    }
}

/// Writes `a`, `x`, `b`, `y`, `c` one after the other.
fn frame(a: &str, x: &str, b: &str, y: &str, c: &str) -> (r: String)
    ensures
        r@ == framed(a@, x@, b@, y@, c@),
{
    let r = String::from_str(a).concat(x).concat(b).concat(y).concat(c);
    assert(r@ =~= framed(a@, x@, b@, y@, c@));
    r
}

/// Writes `a`, `x`, `b` and `tail` one after the other.
fn frame_cause(a: &str, x: &str, b: &str, tail: &str) -> (r: String)
    ensures
        r@ == a@ + x@ + b@ + tail@,
{
    let r = String::from_str(a).concat(x).concat(b).concat(tail);
    assert(r@ =~= a@ + x@ + b@ + tail@);
    r
}

impl Error {
    /// The message of the failure, for people.
    pub fn describe(&self) -> (r: String)
        ensures
            r@ == message_of(self@),
        decreases self,
    {
        match self {
            Error::MissingEnvVar { key } => {
                let r = String::from_str("Environment variable '").concat(key.as_str()).concat(
                    "' is required but not found",
                );
                assert(r@ =~= message_of(self@));
                r
            },
            Error::UnsupportedProvider { provider } => {
                let r = String::from_str("Unsupported storage provider: ").concat(
                    provider.as_str(),
                ).concat(". Allowed: 'oss' | 's3' | 'minio' | 'fs'");
                assert(r@ =~= message_of(self@));
                r
            },
            Error::PathNotFound { path } => String::from_str("Path does not exist: ").concat(
                path.as_str(),
            ),
            Error::InvalidPath { path } => String::from_str("Invalid path: ").concat(path.as_str()),
            Error::DirectoryDeletionNotRecursive { path } => String::from_str(
                "Cannot delete directory without -R flag: ",
            ).concat(path.as_str()),
            Error::DirectoryUploadNotRecursive => String::from_str("Use -R to upload directories"),
            Error::PartialDeletion { failed_paths } => {
                let r = String::from_str("Partial deletion failure: ").concat(
                    decimal_string(failed_paths.len() as u128).as_str(),
                ).concat(" path(s) failed to delete");
                assert(r@ =~= message_of(self@));
                r
            },
            Error::DeleteFailed { paths, recursive, source } => {
                let flag = if *recursive {
                    "true"
                } else {
                    "false"
                };
                let head = frame("Failed to delete '", paths.as_str(), "' (recursive: ", flag, "): ");
                let r = head.concat(source.describe().as_str());
                assert(r@ =~= message_of(self@));
                r
            },
            Error::DownloadFailed { remote_path, local_path, source } => {
                let head = frame(
                    "Failed to download '",
                    remote_path.as_str(),
                    "' to '",
                    local_path.as_str(),
                    "': ",
                );
                let r = head.concat(source.describe().as_str());
                assert(r@ =~= message_of(self@));
                r
            },
            Error::UploadFailed { local_path, remote_path, source } => {
                let head = frame(
                    "Failed to upload '",
                    local_path.as_str(),
                    "' to '",
                    remote_path.as_str(),
                    "': ",
                );
                let r = head.concat(source.describe().as_str());
                assert(r@ =~= message_of(self@));
                r
            },
            Error::CopyFailed { src_path, dest_path, source } => {
                let head = frame(
                    "Failed to copy '",
                    src_path.as_str(),
                    "' to '",
                    dest_path.as_str(),
                    "': ",
                );
                let r = head.concat(source.describe().as_str());
                assert(r@ =~= message_of(self@));
                r
            },
            Error::ListDirectoryFailed { path, source } => {
                let r = frame_cause(
                    "Failed to list directory '",
                    path.as_str(),
                    "': ",
                    source.describe().as_str(),
                );
                assert(r@ =~= message_of(self@));
                r
            },
            Error::DiskUsageFailed { path, source } => {
                let r = frame_cause(
                    "Failed to get disk usage for '",
                    path.as_str(),
                    "': ",
                    source.describe().as_str(),
                );
                assert(r@ =~= message_of(self@));
                r
            },
            Error::DirectoryCreationFailed { path, source } => {
                let r = frame_cause(
                    "Failed to create directory '",
                    path.as_str(),
                    "': ",
                    source.describe().as_str(),
                );
                assert(r@ =~= message_of(self@));
                r
            },
            Error::CatFailed { path, source } => {
                let r = frame_cause(
                    "Failed to read file '",
                    path.as_str(),
                    "': ",
                    source.describe().as_str(),
                );
                assert(r@ =~= message_of(self@));
                r
            },
            Error::OpenDal { not_found, message } => String::from_str("OpenDAL error: ").concat(
                message.as_str(),
            ),
            Error::Io { message } => String::from_str("IO error: ").concat(message.as_str()),
        }
    }

    /// Whether the failure is, at its root, the absence of a key in the
    /// backend.
    pub fn is_not_found(&self) -> (r: bool)
        ensures
            r == (self@ matches ErrorView::OpenDal { not_found: true, .. }),
    {
        match self {
            Error::OpenDal { not_found, .. } => *not_found,
            _ => false,
        }
    }

    /// The failure of a deletion of `paths`, with `source` as its cause. Of
    /// many paths only the first five are named.
    pub fn delete_failed(paths: &Vec<String>, recursive: bool, source: Error) -> (e: Error)
        ensures
            e@ == (ErrorView::DeleteFailed {
                paths: path_summary(string_views(paths@)),
                recursive,
                source: Box::new(source@),
            }),
    {
        let summary = join_first(paths, 5, ",");
        proof {
            let named = first_parts(paths@, 5);
            if paths.len() <= 5 {
                assert(named =~= string_views(paths@));
            } else {
                assert(named =~= string_views(paths@).take(5));
            }
        }
        Error::DeleteFailed { paths: summary, recursive, source: Box::new(source) }
    }
}

} // verus!
