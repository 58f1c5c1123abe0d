//! The commands of the tool and their arguments, as plain values.

use vstd::prelude::*;
use vstd::string::*;
use crate::error::{Error, ErrorView};
use crate::text::{is_blank, is_white_space, is_whitespace_char, to_chars};

verus! {

/// The arguments of one invocation.
#[derive(Debug)]
pub struct Args {
    pub command: Commands,
}

/// The commands.
#[derive(Debug)]
pub enum Commands {
    /// List what is under a path.
    Ls(LsArgs),
    /// Download from remote to local.
    Get(GetArgs),
    /// Show how much space a path takes.
    Du(DuArgs),
    /// Upload from local to remote.
    Put(PutArgs),
    /// Remove remote files and directories.
    Rm(RmArgs),
    /// Copy within the remote storage.
    Cp(CpArgs),
    /// Create remote directories.
    Mkdir(MkdirArgs),
}

/// What `ls` takes.
#[derive(Debug)]
pub struct LsArgs {
    /// The path to list.
    pub path: String,
    /// Show details for each entry.
    pub long: bool,
    /// Descend into directories.
    pub recursive: bool,
}

/// What `get` takes.
#[derive(Debug)]
pub struct GetArgs {
    /// The remote path to download from.
    pub remote: String,
    /// The local path to download to.
    pub local: String,
}

/// What `du` takes.
#[derive(Debug)]
pub struct DuArgs {
    /// The path to measure.
    pub path: String,
    /// Show the total only.
    pub summary: bool,
}

/// What `put` takes.
#[derive(Debug)]
pub struct PutArgs {
    /// The local path to upload from.
    pub local: String,
    /// The remote path to upload to.
    pub remote: String,
    /// Descend into directories.
    pub recursive: bool,
}

/// What `rm` takes.
#[derive(Debug)]
pub struct RmArgs {
    /// The remote paths to delete.
    pub paths: Vec<String>,
    /// Delete directories with all they hold.
    pub recursive: bool,
    /// Do not ask before deleting.
    pub force: bool,
}

/// What `cp` takes.
#[derive(Debug)]
pub struct CpArgs {
    /// The remote path to copy from.
    pub src_path: String,
    /// The remote path to copy to.
    pub dest_path: String,
}

/// What `mkdir` takes.
#[derive(Debug)]
pub struct MkdirArgs {
    /// The directory to create.
    pub path: String,
    /// Create missing parent directories too.
    pub parents: bool,
}

/// Accepts a path argument unless it is empty or blank.
pub fn parse_validated_path(path_str: &str) -> (r: Result<String, Error>)
    ensures
        match r {
            Ok(p) => !is_blank(path_str@) && p@ == path_str@,
            Err(e) => is_blank(path_str@) && e@ == (ErrorView::InvalidPath { path: path_str@ }),
        },
{
    let c = to_chars(path_str);
    let mut i: usize = 0;
    while i < c.len()
        invariant
            c@ == path_str@,
            i <= c.len(),
            forall|j: int| 0 <= j < i ==> is_white_space(#[trigger] c@[j]),
        decreases c.len() - i,
    {
        if !is_whitespace_char(c[i]) {
            assert(!is_white_space(path_str@[i as int]));
            return Ok(String::from_str(path_str));
        }
        i += 1;
    }
    Err(Error::InvalidPath { path: String::from_str(path_str) })
}

} // verus!
