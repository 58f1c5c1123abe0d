//! Downloading a remote object or tree to the local file system.
//!
//! Unlike a listing, a download needs its source to exist. Every entry of the
//! recursive listing of the source is mapped to a local path below the
//! destination. Directories are created before files are written into them: a
//! file's parent directory is created first, with all that is missing above
//! it. Listings may be stale, so an entry that cannot be trusted or that has
//! vanished by the time it is read is skipped, not fatal.

use vstd::prelude::*;
use vstd::string::*;
use crate::entry::{entry_views, StorageEntry, StorageEntryView};
use crate::error::{Error, ErrorView};
use crate::path::{
    build_remote_path, get_root_relative_path, has_doubled_delimiter, join_key, last_component,
    lemma_last_component_at, lemma_trim_end_at, relative_to, trim_end,
};
use crate::text::to_chars;

verus! {

/// What to do for one entry of the listing.
#[derive(Debug, PartialEq, Eq)]
pub enum DownloadStep {
    /// Leave the entry out: its key holds a doubled delimiter, which a
    /// backend may normalise differently when the key is read.
    SkipMalformed { key: String },
    /// Create the local directory, with all that is missing above it.
    CreateDirectory { local_path: String },
    /// Create the parent directory, if the local path has one, then read the
    /// object and write it to the local path.
    Fetch { remote_key: String, local_path: String, parent: Option<String> },
}

/// The mathematical value of a [`DownloadStep`].
pub enum DownloadStepView {
    SkipMalformed { key: Seq<char> },
    CreateDirectory { local_path: Seq<char> },
    Fetch { remote_key: Seq<char>, local_path: Seq<char>, parent: Option<Seq<char>> },
}

impl View for DownloadStep {
    type V = DownloadStepView;

    open spec fn view(&self) -> DownloadStepView {
        match self {
            DownloadStep::SkipMalformed { key } => DownloadStepView::SkipMalformed { key: key@ },
            DownloadStep::CreateDirectory { local_path } => DownloadStepView::CreateDirectory {
                local_path: local_path@,
            },
            DownloadStep::Fetch { remote_key, local_path, parent } => DownloadStepView::Fetch {
                remote_key: remote_key@,
                local_path: local_path@,
                parent: match parent {
                    Some(p) => Some(p@),
                    None => None,
                },
            },
        }
    }
}

/// What to do when reading an object failed.
#[derive(Debug, Clone, Copy, PartialEq, Eq, Structural)]
pub enum ReadFailure {
    /// The object vanished between listing and reading: go on with the next
    /// entry.
    Skip,
    /// Stop the download with the failure.
    Abort,
}

/// The directory a path lies in, if the path names one: what comes before the
/// last component, without the delimiters that end it. A path directly below
/// the root has the root, `/`, as its parent. A path of one component has no
/// parent.
pub open spec fn parent_of(path: Seq<char>) -> Option<Seq<char>> {
    let t = trim_end(path);
    let before = t.take(t.len() - last_component(t).len());
    if before.len() == 0 {
        None
    } else if trim_end(before).len() == 0 {
        Some(seq!['/'])
    } else {
        Some(trim_end(before))
    }
}

/// Whether the source of a download exists: a metadata lookup found it, or
/// its recursive listing is not empty.
pub open spec fn source_present(stat_found: bool, listed: nat) -> bool {
    stat_found || listed > 0
}

/// The local path of an entry: its path relative to the remote root, placed
/// under the local root.
pub open spec fn local_path_of(
    remote_root: Seq<char>,
    local_root: Seq<char>,
    key: Seq<char>,
) -> Seq<char> {
    join_key(local_root, relative_to(key, remote_root))
}

/// The step for one entry.
pub open spec fn download_step(
    remote_root: Seq<char>,
    local_root: Seq<char>,
    entry: StorageEntryView,
) -> DownloadStepView {
    if has_doubled_delimiter(entry.key) {
        DownloadStepView::SkipMalformed { key: entry.key }
    } else if entry.is_directory {
        DownloadStepView::CreateDirectory {
            local_path: local_path_of(remote_root, local_root, entry.key),
        }
    } else {
        DownloadStepView::Fetch {
            remote_key: entry.key,
            local_path: local_path_of(remote_root, local_root, entry.key),
            parent: parent_of(local_path_of(remote_root, local_root, entry.key)),
        }
    }
}

/// The steps of a whole download, or the failure that keeps it from starting.
pub open spec fn download_plan(
    remote_root: Seq<char>,
    local_root: Seq<char>,
    stat_found: bool,
    entries: Seq<StorageEntryView>,
) -> Result<Seq<DownloadStepView>, ErrorView> {
    if !source_present(stat_found, entries.len()) {
        Err(ErrorView::PathNotFound { path: remote_root })
    } else {
        Ok(Seq::new(entries.len(), |i: int| download_step(remote_root, local_root, entries[i])))
    }
}

/// The values of a list of steps.
pub open spec fn step_views(v: Seq<DownloadStep>) -> Seq<DownloadStepView> {
    Seq::new(v.len(), |i: int| v[i]@)
}

/// Whether a key holds two delimiters in a row.
pub fn is_malformed_key(key: &str) -> (r: bool)
    ensures
        r == has_doubled_delimiter(key@),
{
    let c = to_chars(key);
    if c.len() < 2 {
        return false;
    }
    let mut i: usize = 0;
    while i < c.len() - 1
        invariant
            c@ == key@,
            c.len() >= 2,
            i <= c.len() - 1,
            forall|j: int| 0 <= j < i ==> !(#[trigger] c@[j] == '/' && c@[j + 1] == '/'),
        decreases c.len() - i,
    {
        if c[i] == '/' && c[i + 1] == '/' {
            return true;
        }
        i += 1;
    }
    false
}

/// The directory a local path lies in, if any.
pub fn parent_path(path: &str) -> (r: Option<String>)
    ensures
        match r {
            Some(p) => parent_of(path@) == Some(p@),
            None => parent_of(path@) is None,
        },
{
    let c = to_chars(path);
    // the end of the path without trailing delimiters
    let mut e: usize = c.len();
    while e > 0 && c[e - 1] == '/'
        invariant
            e <= c.len(),
            forall|i: int| e <= i < c.len() ==> c@[i] == '/',
        decreases e,
    {
        e -= 1;
    }
    // the start of the last component
    let mut k: usize = e;
    while k > 0 && c[k - 1] != '/'
        invariant
            k <= e <= c.len(),
            forall|i: int| k <= i < e ==> c@[i] != '/',
        decreases k,
    {
        k -= 1;
    }
    // the end of what comes before, without trailing delimiters
    let mut b: usize = k;
    while b > 0 && c[b - 1] == '/'
        invariant
            b <= k <= c.len(),
            forall|i: int| b <= i < k ==> c@[i] == '/',
        decreases b,
    {
        b -= 1;
    }
    proof {
        lemma_trim_end_at(c@, e as int);
        let t = c@.take(e as int);
        assert(trim_end(path@) == t);
        lemma_last_component_at(t, k as int);
        assert(last_component(t) == t.skip(k as int));
        let before = t.take(k as int);
        assert(before =~= c@.take(k as int));
        lemma_trim_end_at(before, b as int);
        assert(before.take(b as int) =~= c@.subrange(0, b as int));
    }
    if k == 0 {
        None
    } else if b == 0 {
        proof {
            reveal_strlit("/");
        }
        let root = String::from_str("/");
        assert(root@ =~= seq!['/']);
        Some(root)
    } else {
        Some(String::from_str(path.substring_char(0, b)))
    }
}

/// Checks that the source of a download exists. `stat_found` says whether a
/// metadata lookup found the remote path, `listed` how many entries its
/// recursive listing has.
pub fn check_source(remote_path: &str, stat_found: bool, listed: usize) -> (r: Result<(), Error>)
    ensures
        r is Ok == source_present(stat_found, listed as nat),
        r matches Err(e) ==> e@ == (ErrorView::PathNotFound { path: remote_path@ }),
{
    if stat_found || listed > 0 {
        Ok(())
    } else {
        Err(Error::PathNotFound { path: String::from_str(remote_path) })
    }
}

/// Decides what to do for one entry of the recursive listing of
/// `remote_root`.
pub fn plan_entry(remote_root: &str, local_root: &str, entry: &StorageEntry) -> (r: DownloadStep)
    ensures
        r@ == download_step(remote_root@, local_root@, entry@),
{
    if is_malformed_key(entry.key.as_str()) {
        return DownloadStep::SkipMalformed { key: entry.key.clone() };
    }
    let relative = get_root_relative_path(entry.key.as_str(), remote_root);
    let local_path = build_remote_path(local_root, relative.as_str());
    if entry.is_directory {
        DownloadStep::CreateDirectory { local_path }
    } else {
        let parent = parent_path(local_path.as_str());
        DownloadStep::Fetch { remote_key: entry.key.clone(), local_path, parent }
    }
}

/// Lays out a whole download. A source that does not exist fails the
/// download before anything is created locally.
pub fn plan_download(
    remote_root: &str,
    local_root: &str,
    stat_found: bool,
    entries: &Vec<StorageEntry>,
) -> (r: Result<Vec<DownloadStep>, Error>)
    ensures
        match r {
            Ok(steps) => download_plan(remote_root@, local_root@, stat_found, entry_views(entries@))
                == Ok::<Seq<DownloadStepView>, ErrorView>(step_views(steps@)),
            Err(e) => download_plan(remote_root@, local_root@, stat_found, entry_views(entries@))
                == Err::<Seq<DownloadStepView>, ErrorView>(e@),
        },
{
    match check_source(remote_root, stat_found, entries.len()) {
        Err(e) => Err(e),
        Ok(_) => {
            let mut steps: Vec<DownloadStep> = Vec::new();
            let mut i: usize = 0;
            while i < entries.len()
                invariant
                    i <= entries.len(),
                    steps@.len() == i,
                    forall|j: int|
                        0 <= j < i ==> (#[trigger] steps@[j])@ == download_step(
                            remote_root@,
                            local_root@,
                            entries@[j]@,
                        ),
                decreases entries.len() - i,
            {
                steps.push(plan_entry(remote_root, local_root, &entries[i]));
                i += 1;
            }
            assert(step_views(steps@) =~= Seq::new(
                entries@.len(),
                |i: int| download_step(remote_root@, local_root@, entry_views(entries@)[i]),
            ));
            Ok(steps)
        },
    }
}

/// Decides what a failed read means for the download. `not_found` says
/// whether the backend reported the object as absent.
pub fn on_read_failure(not_found: bool) -> (r: ReadFailure)
    ensures
        r == if not_found {
            ReadFailure::Skip
        } else {
            ReadFailure::Abort
        },
{
    if not_found {
        ReadFailure::Skip
    } else {
        ReadFailure::Abort
    }
}

/// A download of a source that does not exist plans nothing: there is no
/// step that could create a local directory.
pub proof fn lemma_missing_source_plans_nothing(
    remote_root: Seq<char>,
    local_root: Seq<char>,
    entries: Seq<StorageEntryView>,
)
    requires
        entries.len() == 0,
    ensures
        download_plan(remote_root, local_root, false, entries) == Err::<
            Seq<DownloadStepView>,
            ErrorView,
        >(ErrorView::PathNotFound { path: remote_root }),
{
}

/// A download that starts has one step per entry, and writes only below the
/// local root: every local path it names starts with the local root, trimmed
/// of trailing delimiters and followed by one delimiter.
pub proof fn lemma_download_stays_below_local_root(
    remote_root: Seq<char>,
    local_root: Seq<char>,
    key: Seq<char>,
)
    requires
        local_root.len() > 0,
    ensures
        local_path_of(remote_root, local_root, key).len() > trim_end(local_root).len(),
        local_path_of(remote_root, local_root, key).take(trim_end(local_root).len() as int + 1)
            == trim_end(local_root).push('/'),
{
    let d = local_path_of(remote_root, local_root, key);
    let t = trim_end(local_root);
    assert(d.take(t.len() as int + 1) =~= t.push('/'));
}

} // verus!
