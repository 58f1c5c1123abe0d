//! Showing a listing.

use vstd::prelude::*;
use vstd::string::*;
use crate::entry::{entry_views, option_view, StorageEntry, StorageEntryView};
use crate::size::{format_size, size_text};
use crate::stat::line_views;
use crate::storage::or_default;
use crate::text::{clone_option, pad_left, pad_right, padded_left, padded_right};

verus! {

/// What the detailed listing shows of an entry.
#[derive(Debug, Clone)]
pub struct FileInfo {
    pub path: String,
    pub size: u64,
    pub modified: Option<String>,
    pub is_dir: bool,
}

/// The mathematical value of a [`FileInfo`].
pub struct FileInfoView {
    pub path: Seq<char>,
    pub size: u64,
    pub modified: Option<Seq<char>>,
    pub is_dir: bool,
}

impl View for FileInfo {
    type V = FileInfoView;

    open spec fn view(&self) -> FileInfoView {
        FileInfoView {
            path: self.path@,
            size: self.size,
            modified: option_view(self.modified),
            is_dir: self.is_dir,
        }
    }
}

/// The details of an entry.
pub open spec fn info_of(entry: StorageEntryView) -> FileInfoView {
    FileInfoView {
        path: entry.key,
        size: entry.size,
        modified: entry.last_modified,
        is_dir: entry.is_directory,
    }
}

/// The detailed line of an entry: its type in a column of six, its size
/// right-aligned in a column of ten (a dash for a directory), the time of its
/// last change or `Unknown`, and its path, each separated by a space.
pub open spec fn long_line(info: FileInfoView) -> Seq<char> {
    let file_type = if info.is_dir {
        "DIR"@
    } else {
        "FILE"@
    };
    let size = if info.is_dir {
        "-"@
    } else {
        size_text(info.size as nat)
    };
    padded_right(file_type, 6) + seq![' '] + padded_left(size, 10) + seq![' '] + or_default(
        info.modified,
        "Unknown"@,
    ) + seq![' '] + info.path
}

/// The line of an entry: the detailed one, or the key alone.
pub open spec fn listing_line(entry: StorageEntryView, long: bool) -> Seq<char> {
    if long {
        long_line(info_of(entry))
    } else {
        entry.key
    }
}

impl FileInfo {
    /// Takes the details of an entry.
    pub fn from_entry(entry: &StorageEntry) -> (r: FileInfo)
        ensures
            r@ == info_of(entry@),
    {
        FileInfo {
            path: entry.key.clone(),
            size: entry.size,
            modified: clone_option(&entry.last_modified),
            is_dir: entry.is_directory,
        }
    }

    /// Renders the detailed line.
    pub fn to_line(&self) -> (r: String)
        ensures
            r@ == long_line(self@),
    {
        let file_type = if self.is_dir {
            "DIR"
        } else {
            "FILE"
        };
        let size = if self.is_dir {
            String::from_str("-")
        } else {
            format_size(self.size)
        };
        let modified = match &self.modified {
            Some(t) => t.as_str(),
            None => "Unknown",
        };
        proof {
            reveal_strlit(" ");
        }
        let r = pad_right(file_type, 6).concat(" ").concat(pad_left(size.as_str(), 10).as_str()).concat(
            " ",
        ).concat(modified).concat(" ").concat(self.path.as_str());
        assert(r@ =~= long_line(self@));
        r
    }
}

/// Renders the line of one entry.
pub fn entry_line(entry: &StorageEntry, long: bool) -> (r: String)
    ensures
        r@ == listing_line(entry@, long),
{
    if long {
        FileInfo::from_entry(entry).to_line()
    } else {
        entry.key.clone()
    }
}

/// Renders a whole listing, one line per entry, in the order the backend
/// listed them. An empty listing renders as no lines: a prefix that does not
/// exist is no failure here.
pub fn list_lines(entries: &Vec<StorageEntry>, long: bool) -> (r: Vec<String>)
    ensures
        line_views(r@) == Seq::new(
            entries@.len(),
            |i: int| listing_line(entry_views(entries@)[i], long),
        ),
{
    let mut lines: Vec<String> = Vec::new();
    let mut i: usize = 0;
    while i < entries.len()
        invariant
            i <= entries.len(),
            lines@.len() == i,
            forall|j: int| 0 <= j < i ==> (#[trigger] lines@[j])@ == listing_line(entries@[j]@, long),
        decreases entries.len() - i,
    {
        lines.push(entry_line(&entries[i], long));
        i += 1;
    }
    assert(line_views(lines@) =~= Seq::new(
        entries@.len(),
        |i: int| listing_line(entry_views(entries@)[i], long),
    ));
    lines
}

} // verus!
