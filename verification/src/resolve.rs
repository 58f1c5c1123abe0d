//! Telling files from directories in a namespace that has no directories.
//!
//! A key is a directory if a metadata lookup says so. If the lookup finds a
//! file, it is a file. If the lookup finds nothing, the key may still be a
//! virtual directory: one that exists only as the prefix of other keys. A
//! listing of the prefix, limited to one result, settles that.

use vstd::prelude::*;
use vstd::string::*;
use crate::entry::EntryMode;
use crate::path::{ensure_trailing_slash, with_trailing_slash};

verus! {

/// What a metadata lookup says about a key being a directory.
#[derive(Debug, PartialEq, Eq)]
pub enum DirectoryCheck {
    /// The lookup found a directory.
    Directory,
    /// The lookup found something else.
    NotDirectory,
    /// The lookup found nothing: list this prefix, with a limit of one.
    Probe { prefix: String },
}

/// The mathematical value of a [`DirectoryCheck`].
pub enum DirectoryCheckView {
    Directory,
    NotDirectory,
    Probe { prefix: Seq<char> },
}

impl View for DirectoryCheck {
    type V = DirectoryCheckView;

    open spec fn view(&self) -> DirectoryCheckView {
        match self {
            DirectoryCheck::Directory => DirectoryCheckView::Directory,
            DirectoryCheck::NotDirectory => DirectoryCheckView::NotDirectory,
            DirectoryCheck::Probe { prefix } => DirectoryCheckView::Probe { prefix: prefix@ },
        }
    }
}

/// The verdict of the first step of the detection.
pub open spec fn directory_check(path: Seq<char>, stat: Option<EntryMode>) -> DirectoryCheckView {
    match stat {
        Some(EntryMode::Dir) => DirectoryCheckView::Directory,
        Some(_) => DirectoryCheckView::NotDirectory,
        None => DirectoryCheckView::Probe { prefix: with_trailing_slash(path) },
    }
}

/// The verdict of the second step: a prefix is a directory if its listing
/// succeeded and was not empty.
pub open spec fn probe_verdict(listed: Option<usize>) -> bool {
    match listed {
        Some(n) => n > 0,
        None => false,
    }
}

/// Whether a key is a directory, given the lookup's result and, for a key the
/// lookup did not find, the result of probing its prefix.
pub open spec fn is_directory(stat: Option<EntryMode>, listed: Option<usize>) -> bool {
    match stat {
        Some(EntryMode::Dir) => true,
        Some(_) => false,
        None => probe_verdict(listed),
    }
}

/// First step of the detection. `stat` is the mode a metadata lookup of
/// `path` reported, or `None` if the lookup failed.
pub fn check_directory(path: &str, stat: Option<EntryMode>) -> (r: DirectoryCheck)
    ensures
        r@ == directory_check(path@, stat),
{
    match stat {
        Some(EntryMode::Dir) => DirectoryCheck::Directory,
        Some(_) => DirectoryCheck::NotDirectory,
        None => DirectoryCheck::Probe { prefix: ensure_trailing_slash(path) },
    }
}

/// Second step of the detection. `listed` is the number of entries the
/// limited listing of the prefix returned, or `None` if the listing failed.
pub fn probe_result(listed: Option<usize>) -> (r: bool)
    ensures
        r == probe_verdict(listed),
{
    match listed {
        Some(n) => n > 0,
        None => false,
    }
}

/// Whether a key exists at all: as an object the lookup found, or as a
/// directory.
pub fn source_exists(stat: Option<EntryMode>, is_dir: bool) -> (r: bool)
    ensures
        r == (stat is Some || is_dir),
{
    stat.is_some() || is_dir
}

/// The two steps agree with the one-line definition: when the lookup decides,
/// the probe is not consulted, and when it does not, the probe decides.
pub proof fn lemma_detection_steps(path: Seq<char>, stat: Option<EntryMode>, listed: Option<usize>)
    ensures
        directory_check(path, stat) is Directory ==> is_directory(stat, listed),
        directory_check(path, stat) is NotDirectory ==> !is_directory(stat, listed),
        directory_check(path, stat) is Probe ==> is_directory(stat, listed) == probe_verdict(
            listed,
        ),
{
}

} // verus!
