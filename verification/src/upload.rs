//! Uploading a local file or tree to the remote namespace.
//!
//! A single file goes below the remote destination under its own name. A
//! directory is uploaded only when the caller asks for it explicitly; its
//! tree is then recreated below the destination, each entry under the remote
//! path of its directory.

use vstd::prelude::*;
use vstd::string::*;
use crate::constants::{DEFAULT_BUFFER_SIZE, PROGRESS_UPDATE_INTERVAL};
use crate::error::{Error, ErrorView};
use crate::path::{base_name, basename, build_remote_path, join_key};
use crate::transfer::Transfer;

verus! {

/// What a local path turned out to be.
#[derive(Debug, Clone, Copy, PartialEq, Eq, Structural)]
pub enum LocalKind {
    /// Nothing is there.
    Missing,
    /// A regular file.
    File,
    /// A directory.
    Directory,
    /// Something else, which is neither uploaded nor an error.
    Other,
}

/// How an upload proceeds.
#[derive(Debug, PartialEq, Eq)]
pub enum UploadPlan {
    /// Send the one file to `remote_path`.
    File { remote_path: String },
    /// Walk the local directory and recreate it below `remote_root`.
    Tree { remote_root: String },
    /// There is nothing to send.
    Nothing,
}

/// The mathematical value of an [`UploadPlan`].
pub enum UploadPlanView {
    File { remote_path: Seq<char> },
    Tree { remote_root: Seq<char> },
    Nothing,
}

impl View for UploadPlan {
    type V = UploadPlanView;

    open spec fn view(&self) -> UploadPlanView {
        match self {
            UploadPlan::File { remote_path } => UploadPlanView::File { remote_path: remote_path@ },
            UploadPlan::Tree { remote_root } => UploadPlanView::Tree { remote_root: remote_root@ },
            UploadPlan::Nothing => UploadPlanView::Nothing,
        }
    }
}

/// What to do with one entry of a local directory.
#[derive(Debug, PartialEq, Eq)]
pub enum UploadStep {
    /// The entry is a directory: walk it, with `remote_path` as the remote
    /// path of what it holds.
    Descend { remote_path: String },
    /// The entry is a file: send it to `remote_path`.
    Send { remote_path: String },
}

/// The mathematical value of an [`UploadStep`].
pub enum UploadStepView {
    Descend { remote_path: Seq<char> },
    Send { remote_path: Seq<char> },
}

impl View for UploadStep {
    type V = UploadStepView;

    open spec fn view(&self) -> UploadStepView {
        match self {
            UploadStep::Descend { remote_path } => UploadStepView::Descend {
                remote_path: remote_path@,
            },
            UploadStep::Send { remote_path } => UploadStepView::Send { remote_path: remote_path@ },
        }
    }
}

/// The name a local file is uploaded under: its base name, or the whole path
/// where that has none.
pub open spec fn upload_name(local: Seq<char>) -> Seq<char> {
    if base_name(local).len() == 0 {
        local
    } else {
        base_name(local)
    }
}

/// The plan for an upload.
///
/// * A local path that does not exist is not found.
/// * A file goes below the remote path, under its own name.
/// * A directory is walked if the upload is recursive, and refused if not.
pub open spec fn upload_plan(
    local: Seq<char>,
    remote: Seq<char>,
    kind: LocalKind,
    recursive: bool,
) -> Result<UploadPlanView, ErrorView> {
    match kind {
        LocalKind::Missing => Err(ErrorView::PathNotFound { path: local }),
        LocalKind::File => Ok(
            UploadPlanView::File { remote_path: join_key(remote, upload_name(local)) },
        ),
        LocalKind::Directory => if recursive {
            Ok(UploadPlanView::Tree { remote_root: remote })
        } else {
            Err(ErrorView::DirectoryUploadNotRecursive)
        },
        LocalKind::Other => Ok(UploadPlanView::Nothing),
    }
}

/// The step for an entry named `file_name` of a directory whose remote path
/// is `remote_dir`.
pub open spec fn upload_step(
    remote_dir: Seq<char>,
    file_name: Seq<char>,
    is_dir: bool,
) -> UploadStepView {
    if is_dir {
        UploadStepView::Descend { remote_path: join_key(remote_dir, file_name) }
    } else {
        UploadStepView::Send { remote_path: join_key(remote_dir, file_name) }
    }
}

/// Decides how to upload `local_path` to `remote_path`.
pub fn plan_upload(local_path: &str, remote_path: &str, kind: LocalKind, recursive: bool) -> (r:
    Result<UploadPlan, Error>)
    ensures
        match r {
            Ok(plan) => upload_plan(local_path@, remote_path@, kind, recursive) == Ok::<
                UploadPlanView,
                ErrorView,
            >(plan@),
            Err(e) => upload_plan(local_path@, remote_path@, kind, recursive) == Err::<
                UploadPlanView,
                ErrorView,
            >(e@),
        },
{
    match kind {
        LocalKind::Missing => Err(Error::PathNotFound { path: String::from_str(local_path) }),
        LocalKind::File => {
            let name = basename(local_path);
            let remote = if name.as_str().unicode_len() == 0 {
                build_remote_path(remote_path, local_path)
            } else {
                build_remote_path(remote_path, name.as_str())
            };
            Ok(UploadPlan::File { remote_path: remote })
        },
        LocalKind::Directory => {
            if recursive {
                Ok(UploadPlan::Tree { remote_root: String::from_str(remote_path) })
            } else {
                Err(Error::DirectoryUploadNotRecursive)
            }
        },
        LocalKind::Other => Ok(UploadPlan::Nothing),
    }
}

/// Decides what to do with one entry of a local directory.
pub fn plan_entry(remote_dir: &str, file_name: &str, is_dir: bool) -> (r: UploadStep)
    ensures
        r@ == upload_step(remote_dir@, file_name@, is_dir),
{
    let remote_path = build_remote_path(remote_dir, file_name);
    if is_dir {
        UploadStep::Descend { remote_path }
    } else {
        UploadStep::Send { remote_path }
    }
}

/// The transfer of one local file: it is read from start to end, one buffer
/// at a time.
pub fn file_transfer() -> (t: Transfer)
    ensures
        t == (Transfer {
            size: None,
            chunk_size: DEFAULT_BUFFER_SIZE as u64,
            transferred: 0,
            finished: false,
        }),
{
    Transfer::sequential(DEFAULT_BUFFER_SIZE as u64)
}

/// The distance between two progress reports of an upload, in bytes.
pub fn progress_step() -> (r: u64)
    ensures
        r == DEFAULT_BUFFER_SIZE as u64 * PROGRESS_UPDATE_INTERVAL,
{
    DEFAULT_BUFFER_SIZE as u64 * PROGRESS_UPDATE_INTERVAL
}

/// An upload without the recursive flag never touches a directory, and one
/// with it never refuses one.
pub proof fn lemma_directory_needs_recursive(local: Seq<char>, remote: Seq<char>, recursive: bool)
    ensures
        upload_plan(local, remote, LocalKind::Directory, recursive) is Ok == recursive,
        !recursive ==> upload_plan(local, remote, LocalKind::Directory, recursive) == Err::<
            UploadPlanView,
            ErrorView,
        >(ErrorView::DirectoryUploadNotRecursive),
{
}

} // verus!
