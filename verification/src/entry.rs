//! What a storage backend reports about the objects it holds.

use vstd::prelude::*;

verus! {

/// The kind of thing a metadata lookup found under a key.
#[derive(Debug, Clone, Copy, PartialEq, Eq, Structural)]
pub enum EntryMode {
    /// An object with content.
    File,
    /// A directory, real or marked.
    Dir,
    /// Something the backend could not classify.
    Unknown,
}

/// One result of a listing. Entries are read-only facts: the library never
/// changes one.
#[derive(Debug, Clone, PartialEq, Eq)]
pub struct StorageEntry {
    pub key: String,
    pub is_directory: bool,
    pub size: u64,
    pub last_modified: Option<String>,
    pub etag: Option<String>,
    pub content_type: Option<String>,
}

/// The contents of an optional string.
pub open spec fn option_view(o: Option<String>) -> Option<Seq<char>> {
    match o {
        Some(s) => Some(s@),
        None => None,
    }
}

/// The mathematical value of a [`StorageEntry`].
pub struct StorageEntryView {
    pub key: Seq<char>,
    pub is_directory: bool,
    pub size: u64,
    pub last_modified: Option<Seq<char>>,
    pub etag: Option<Seq<char>>,
    pub content_type: Option<Seq<char>>,
}

impl View for StorageEntry {
    type V = StorageEntryView;

    open spec fn view(&self) -> StorageEntryView {
        StorageEntryView {
            key: self.key@,
            is_directory: self.is_directory,
            size: self.size,
            last_modified: option_view(self.last_modified),
            etag: option_view(self.etag),
            content_type: option_view(self.content_type),
        }
    }
}

/// The values of a list of entries.
pub open spec fn entry_views(v: Seq<StorageEntry>) -> Seq<StorageEntryView> {
    Seq::new(v.len(), |i: int| v[i]@)
}

impl StorageEntry {
    /// An entry for a file of the given size, with no further metadata.
    pub fn file(key: String, size: u64) -> (r: StorageEntry)
        ensures
            r@ == (StorageEntryView {
                key: key@,
                is_directory: false,
                size,
                last_modified: None,
                etag: None,
                content_type: None,
            }),
    {
        StorageEntry {
            key,
            is_directory: false,
            size,
            last_modified: None,
            etag: None,
            content_type: None,
        }
    }

    /// An entry for a directory, with no further metadata.
    pub fn directory(key: String) -> (r: StorageEntry)
        ensures
            r@ == (StorageEntryView {
                key: key@,
                is_directory: true,
                size: 0,
                last_modified: None,
                etag: None,
                content_type: None,
            }),
    {
        StorageEntry {
            key,
            is_directory: true,
            size: 0,
            last_modified: None,
            etag: None,
            content_type: None,
        }
    }
}

} // verus!
