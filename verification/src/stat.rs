//! Metadata of a single object, and how it is shown.

use vstd::prelude::*;
use vstd::string::*;
use crate::entry::{option_view, EntryMode};
use crate::storage::OutputFormat;
use crate::text::{decimal, decimal_string};

verus! {

/// What the `stat` command shows about an object.
#[derive(Debug, Clone)]
pub struct ObjectMeta {
    /// The path as the caller gave it.
    pub path: String,
    /// One of `file`, `dir` and `other`.
    pub entry_type: String,
    /// The length of the content in bytes.
    pub size: u64,
    /// The time of the last change, as text.
    pub last_modified: Option<String>,
    /// The entity tag the backend gives the object.
    pub etag: Option<String>,
    /// The MIME type.
    pub content_type: Option<String>,
}

/// The mathematical value of an [`ObjectMeta`].
pub struct ObjectMetaView {
    pub path: Seq<char>,
    pub entry_type: Seq<char>,
    pub size: u64,
    pub last_modified: Option<Seq<char>>,
    pub etag: Option<Seq<char>>,
    pub content_type: Option<Seq<char>>,
}

impl View for ObjectMeta {
    type V = ObjectMetaView;

    open spec fn view(&self) -> ObjectMetaView {
        ObjectMetaView {
            path: self.path@,
            entry_type: self.entry_type@,
            size: self.size,
            last_modified: option_view(self.last_modified),
            etag: option_view(self.etag),
            content_type: option_view(self.content_type),
        }
    }
}

/// The word for a mode.
pub open spec fn mode_label(mode: EntryMode) -> Seq<char> {
    match mode {
        EntryMode::File => "file"@,
        EntryMode::Dir => "dir"@,
        EntryMode::Unknown => "other"@,
    }
}

/// The word for a mode: `file`, `dir` or `other`.
pub fn entry_type_label(mode: EntryMode) -> (r: String)
    ensures
        r@ == mode_label(mode),
{
    match mode {
        EntryMode::File => String::from_str("file"),
        EntryMode::Dir => String::from_str("dir"),
        EntryMode::Unknown => String::from_str("other"),
    }
}

impl ObjectMeta {
    /// Collects what a metadata lookup of `path` returned.
    pub fn from_stat(
        path: &str,
        mode: EntryMode,
        size: u64,
        last_modified: Option<String>,
        etag: Option<String>,
        content_type: Option<String>,
    ) -> (r: ObjectMeta)
        ensures
            r@ == (ObjectMetaView {
                path: path@,
                entry_type: mode_label(mode),
                size,
                last_modified: option_view(last_modified),
                etag: option_view(etag),
                content_type: option_view(content_type),
            }),
    {
        ObjectMeta {
            path: String::from_str(path),
            entry_type: entry_type_label(mode),
            size,
            last_modified,
            etag,
            content_type,
        }
    }
}

/// A line `key=value`.
pub open spec fn field_line(key: Seq<char>, value: Seq<char>) -> Seq<char> {
    key + seq!['='] + value
}

/// The line for a field that may be absent: nothing if it is.
pub open spec fn optional_line(key: Seq<char>, value: Option<Seq<char>>) -> Seq<Seq<char>> {
    match value {
        Some(v) => seq![field_line(key, v)],
        None => Seq::empty(),
    }
}

/// The lines that show an object's metadata: path, type and size always,
/// then the time of the last change, the entity tag in double quotes, and the
/// content type, each only if known.
pub open spec fn meta_lines(meta: ObjectMetaView) -> Seq<Seq<char>> {
    seq![
        field_line("path"@, meta.path),
        field_line("type"@, meta.entry_type),
        field_line("size"@, decimal(meta.size as nat)),
    ] + optional_line("last_modified"@, meta.last_modified) + optional_line(
        "etag"@,
        match meta.etag {
            Some(tag) => Some(seq!['"'] + tag + seq!['"']),
            None => None,
        },
    ) + optional_line("content_type"@, meta.content_type)
}

/// The contents of a list of lines.
pub open spec fn line_views(v: Seq<String>) -> Seq<Seq<char>> {
    Seq::new(v.len(), |i: int| v[i]@)
}

/// Builds a line `key=value`.
fn make_line(key: &str, value: &str) -> (r: String)
    ensures
        r@ == field_line(key@, value@),
{
    proof {
        reveal_strlit("=");
    }
    let r = String::from_str(key).concat("=").concat(value);
    assert(r@ =~= field_line(key@, value@));
    r
}

/// Renders an object's metadata as lines for people, which are also the
/// `key=value` lines of the raw format. For JSON there are no lines: the
/// caller serialises the metadata itself.
pub fn render_meta(meta: &ObjectMeta, format: OutputFormat) -> (r: Option<Vec<String>>)
    ensures
        r is None == (format == OutputFormat::Json),
        r matches Some(lines) ==> line_views(lines@) == meta_lines(meta@),
{
    match format {
        OutputFormat::Json => None,
        _ => {
            let mut lines: Vec<String> = Vec::new();
            lines.push(make_line("path", meta.path.as_str()));
            lines.push(make_line("type", meta.entry_type.as_str()));
            lines.push(make_line("size", decimal_string(meta.size as u128).as_str()));
            match &meta.last_modified {
                Some(t) => {
                    lines.push(make_line("last_modified", t.as_str()));
                },
                None => {},
            }
            match &meta.etag {
                Some(tag) => {
                    proof {
                        reveal_strlit("\"");
                    }
                    let quoted = String::from_str("\"").concat(tag.as_str()).concat("\"");
                    assert(quoted@ =~= seq!['"'] + tag@ + seq!['"']);
                    lines.push(make_line("etag", quoted.as_str()));
                },
                None => {},
            }
            match &meta.content_type {
                Some(ct) => {
                    lines.push(make_line("content_type", ct.as_str()));
                },
                None => {},
            }
            assert(line_views(lines@) =~= meta_lines(meta@));
            Some(lines)
        },
    }
}

} // verus!
