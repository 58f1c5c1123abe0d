//! Copying and moving within the remote namespace.
//!
//! A source is either a single object or a whole tree. For a tree the engine
//! first fixes the target root, then maps every entry of a recursive listing
//! of the source onto the target: a directory becomes a directory marker, a
//! file becomes a transfer. A move is a copy that deletes each source object
//! right after its transfer completed. Nothing is rolled back: if an
//! operation stops halfway, what was done stays done.

use vstd::prelude::*;
use vstd::string::*;
use crate::constants::DEFAULT_CHUNK_SIZE;
use crate::entry::{entry_views, StorageEntry, StorageEntryView};
use crate::error::{Error, ErrorView};
use crate::path::{
    base_name, basename, build_remote_path, directory_hint, ensure_trailing_slash,
    get_root_relative_path, has_doubled_delimiter, is_directory_hint, join_key,
    lemma_normalize_shape, lemma_normalize_trims_commute, lemma_relative_to_completes_key,
    lemma_relative_to_is_suffix, lemma_relative_to_nonempty, lemma_relative_to_shape,
    lemma_trim_end_at, lemma_trim_end_shape, lemma_trim_start_at, lemma_trim_start_shape,
    normalize, normalize_path, relative_to, strictly_under, trim_end, trim_start, under,
    with_trailing_slash,
};

use crate::progress::ConsoleProgressReporter;
use crate::text::{decimal, decimal_string};
use crate::transfer::Transfer;

verus! {

/// Whether sources stay or go.
#[derive(Debug, Clone, Copy, PartialEq, Eq, Structural)]
pub enum TransferMode {
    /// Sources are left as they are.
    Copy,
    /// Each source object is deleted once its transfer completed.
    Move,
}

/// How an operation proceeds once source and destination are resolved.
#[derive(Debug, PartialEq, Eq)]
pub enum TransferPlan {
    /// The source is a directory. `target_root` is created as a directory,
    /// then the source tree is recreated below it.
    Tree { target_root: String },
    /// The source is a single object that goes to `destination`.
    Single { destination: String },
}

/// The mathematical value of a [`TransferPlan`].
pub enum TransferPlanView {
    Tree { target_root: Seq<char> },
    Single { destination: Seq<char> },
}

impl View for TransferPlan {
    type V = TransferPlanView;

    open spec fn view(&self) -> TransferPlanView {
        match self {
            TransferPlan::Tree { target_root } => TransferPlanView::Tree {
                target_root: target_root@,
            },
            TransferPlan::Single { destination } => TransferPlanView::Single {
                destination: destination@,
            },
        }
    }
}

/// One object to transfer.
#[derive(Debug, Clone, PartialEq, Eq)]
pub struct TransferTask {
    pub source: String,
    pub destination: String,
    pub size_hint: u64,
}

/// The mathematical value of a [`TransferTask`].
pub struct TransferTaskView {
    pub source: Seq<char>,
    pub destination: Seq<char>,
    pub size_hint: u64,
}

impl View for TransferTask {
    type V = TransferTaskView;

    open spec fn view(&self) -> TransferTaskView {
        TransferTaskView {
            source: self.source@,
            destination: self.destination@,
            size_hint: self.size_hint,
        }
    }
}

/// What to do for one entry of the source listing.
#[derive(Debug, PartialEq, Eq)]
pub enum EntryAction {
    /// Nothing: the entry is the source root's own directory marker.
    Skip,
    /// Create a directory marker at `path`.
    CreateDirectory { path: String },
    /// Transfer one object, and delete its source afterwards if asked to.
    Transfer { task: TransferTask, delete_source: bool },
}

/// The mathematical value of an [`EntryAction`].
pub enum EntryActionView {
    Skip,
    CreateDirectory { path: Seq<char> },
    Transfer { task: TransferTaskView, delete_source: bool },
}

impl View for EntryAction {
    type V = EntryActionView;

    open spec fn view(&self) -> EntryActionView {
        match self {
            EntryAction::Skip => EntryActionView::Skip,
            EntryAction::CreateDirectory { path } => EntryActionView::CreateDirectory {
                path: path@,
            },
            EntryAction::Transfer { task, delete_source } => EntryActionView::Transfer {
                task: task@,
                delete_source: *delete_source,
            },
        }
    }
}

/// The plan for a source and a destination.
///
/// * A source that is neither an object nor a directory is an invalid path.
/// * A directory goes below the destination if that is an existing directory,
///   keeping its own name; else it takes the destination's name.
/// * A file cannot go "into" a destination that ends with the delimiter but is
///   no directory: that destination is an invalid path. It goes below an
///   existing directory under its own name, and to any other destination as
///   given.
pub open spec fn transfer_plan(
    src: Seq<char>,
    dest: Seq<char>,
    src_exists: bool,
    src_is_dir: bool,
    dest_is_dir: bool,
) -> Result<TransferPlanView, ErrorView> {
    if !src_exists && !src_is_dir {
        Err(ErrorView::InvalidPath { path: src })
    } else if src_is_dir {
        if dest_is_dir {
            Ok(TransferPlanView::Tree { target_root: join_key(dest, base_name(src)) })
        } else {
            Ok(TransferPlanView::Tree { target_root: dest })
        }
    } else if directory_hint(dest) && !dest_is_dir {
        Err(ErrorView::InvalidPath { path: dest })
    } else if dest_is_dir {
        Ok(TransferPlanView::Single { destination: join_key(dest, base_name(src)) })
    } else {
        Ok(TransferPlanView::Single { destination: dest })
    }
}

/// Whether an entry is the directory marker of the source root itself.
pub open spec fn is_root_marker(src_root: Seq<char>, entry: StorageEntryView) -> bool {
    entry.is_directory && normalize(entry.key) == normalize(src_root)
}

/// Where an entry of the source tree goes below the target root.
pub open spec fn destination_of(
    src_root: Seq<char>,
    target_root: Seq<char>,
    key: Seq<char>,
) -> Seq<char> {
    join_key(target_root, relative_to(key, src_root))
}

/// The action for one entry of the recursive listing of `src_root`.
pub open spec fn entry_action(
    mode: TransferMode,
    src_root: Seq<char>,
    target_root: Seq<char>,
    entry: StorageEntryView,
) -> EntryActionView {
    if is_root_marker(src_root, entry) {
        EntryActionView::Skip
    } else if entry.is_directory {
        EntryActionView::CreateDirectory {
            path: with_trailing_slash(destination_of(src_root, target_root, entry.key)),
        }
    } else {
        EntryActionView::Transfer {
            task: TransferTaskView {
                source: entry.key,
                destination: destination_of(src_root, target_root, entry.key),
                size_hint: entry.size,
            },
            delete_source: mode == TransferMode::Move,
        }
    }
}

/// The actions for a whole tree: first the marker of the target root, then
/// one action per entry, in the order of the listing.
pub open spec fn tree_actions(
    mode: TransferMode,
    src_root: Seq<char>,
    target_root: Seq<char>,
    entries: Seq<StorageEntryView>,
) -> Seq<EntryActionView> {
    seq![EntryActionView::CreateDirectory { path: with_trailing_slash(target_root) }] + Seq::new(
        entries.len(),
        |i: int| entry_action(mode, src_root, target_root, entries[i]),
    )
}

/// The values of a list of actions.
pub open spec fn action_views(v: Seq<EntryAction>) -> Seq<EntryActionView> {
    Seq::new(v.len(), |i: int| v[i]@)
}

/// Decides how to copy or move `src_path` to `dest_path`.
///
/// `src_exists` says whether a metadata lookup found the source, `src_is_dir`
/// and `dest_is_dir` whether source and destination were found to be
/// directories.
pub fn plan_transfer(
    src_path: &str,
    dest_path: &str,
    src_exists: bool,
    src_is_dir: bool,
    dest_is_dir: bool,
) -> (r: Result<TransferPlan, Error>)
    ensures
        match r {
            Ok(plan) => transfer_plan(src_path@, dest_path@, src_exists, src_is_dir, dest_is_dir)
                == Ok::<TransferPlanView, ErrorView>(plan@),
            Err(e) => transfer_plan(src_path@, dest_path@, src_exists, src_is_dir, dest_is_dir)
                == Err::<TransferPlanView, ErrorView>(e@),
        },
{
    if !src_exists && !src_is_dir {
        return Err(Error::InvalidPath { path: String::from_str(src_path) });
    }
    if src_is_dir {
        if dest_is_dir {
            let name = basename(src_path);
            Ok(TransferPlan::Tree { target_root: build_remote_path(dest_path, name.as_str()) })
        } else {
            Ok(TransferPlan::Tree { target_root: String::from_str(dest_path) })
        }
    } else if is_directory_hint(dest_path) && !dest_is_dir {
        Err(Error::InvalidPath { path: String::from_str(dest_path) })
    } else if dest_is_dir {
        let name = basename(src_path);
        Ok(TransferPlan::Single { destination: build_remote_path(dest_path, name.as_str()) })
    } else {
        Ok(TransferPlan::Single { destination: String::from_str(dest_path) })
    }
}

/// The directory marker to create for a directory path: the path with a
/// trailing delimiter.
pub fn directory_marker(dir_path: &str) -> (r: String)
    ensures
        r@ == with_trailing_slash(dir_path@),
{
    ensure_trailing_slash(dir_path)
}

/// Decides what to do for one entry of the recursive listing of `src_root`.
pub fn plan_entry(mode: TransferMode, src_root: &str, target_root: &str, entry: &StorageEntry) -> (r:
    EntryAction)
    ensures
        r@ == entry_action(mode, src_root@, target_root@, entry@),
{
    if entry.is_directory && normalize_path(entry.key.as_str()) == normalize_path(src_root) {
        return EntryAction::Skip;
    }
    let relative = get_root_relative_path(entry.key.as_str(), src_root);
    let destination = build_remote_path(target_root, relative.as_str());
    if entry.is_directory {
        EntryAction::CreateDirectory { path: ensure_trailing_slash(destination.as_str()) }
    } else {
        let delete_source = match mode {
            TransferMode::Copy => false,
            TransferMode::Move => true,
        };
        EntryAction::Transfer {
            task: TransferTask {
                source: entry.key.clone(),
                destination,
                size_hint: entry.size,
            },
            delete_source,
        }
    }
}

/// Lays out a whole tree operation: the marker of the target root, then the
/// action for each entry of the listing.
pub fn plan_tree(
    mode: TransferMode,
    src_root: &str,
    target_root: &str,
    entries: &Vec<StorageEntry>,
) -> (r: Vec<EntryAction>)
    ensures
        action_views(r@) == tree_actions(mode, src_root@, target_root@, entry_views(entries@)),
{
    let mut out: Vec<EntryAction> = Vec::new();
    out.push(EntryAction::CreateDirectory { path: ensure_trailing_slash(target_root) });
    let mut i: usize = 0;
    while i < entries.len()
        invariant
            i <= entries.len(),
            out@.len() == i + 1,
            out@[0]@ == (EntryActionView::CreateDirectory {
                path: with_trailing_slash(target_root@),
            }),
            forall|j: int|
                1 <= j <= i ==> (#[trigger] out@[j])@ == entry_action(
                    mode,
                    src_root@,
                    target_root@,
                    entries@[j - 1]@,
                ),
        decreases entries.len() - i,
    {
        let action = plan_entry(mode, src_root, target_root, &entries[i]);
        out.push(action);
        i += 1;
    }
    proof {
        let expected = tree_actions(mode, src_root@, target_root@, entry_views(entries@));
        assert(action_views(out@).len() == expected.len());
        assert forall|k: int| 0 <= k < expected.len() implies action_views(out@)[k]
            == expected[k] by {
            if k >= 1 {
                assert(out@[k]@ == entry_action(mode, src_root@, target_root@, entries@[k - 1]@));
                assert(entry_views(entries@)[k - 1] == entries@[k - 1]@);
            }
        }
        assert(action_views(out@) =~= expected);
    }
    out
}

/// The plan for a single object: one transfer, followed by the deletion of
/// the source when moving.
pub fn plan_single(mode: TransferMode, src_path: &str, destination: &str, size_hint: u64) -> (r:
    EntryAction)
    ensures
        r@ == (EntryActionView::Transfer {
            task: TransferTaskView { source: src_path@, destination: destination@, size_hint },
            delete_source: mode == TransferMode::Move,
        }),
{
    let delete_source = match mode {
        TransferMode::Copy => false,
        TransferMode::Move => true,
    };
    EntryAction::Transfer {
        task: TransferTask {
            source: String::from_str(src_path),
            destination: String::from_str(destination),
            size_hint,
        },
        delete_source,
    }
}

/// A copy never asks for a source to be deleted. A move asks for it for every
/// object of the listing, and for that object: after a move that ran to its
/// end, no listed object is left in the source tree.
pub proof fn lemma_sources_deleted_only_by_move(
    mode: TransferMode,
    src_root: Seq<char>,
    target_root: Seq<char>,
    entry: StorageEntryView,
)
    ensures
        entry_action(mode, src_root, target_root, entry) matches EntryActionView::Transfer {
            delete_source,
            ..
        } ==> delete_source == (mode == TransferMode::Move),
        !entry.is_directory ==> entry_action(mode, src_root, target_root, entry) == (
        EntryActionView::Transfer {
            task: TransferTaskView {
                source: entry.key,
                destination: destination_of(src_root, target_root, entry.key),
                size_hint: entry.size,
            },
            delete_source: mode == TransferMode::Move,
        }),
        entry.is_directory ==> !(entry_action(mode, src_root, target_root, entry)
            is Transfer),
{
}

/// Where source and target lie apart (neither is the other, nor below it),
/// nothing a tree operation writes lies in the source tree: a copy leaves
/// the source tree as it was.
pub proof fn lemma_destination_outside_source(
    src_root: Seq<char>,
    target_root: Seq<char>,
    key: Seq<char>,
)
    requires
        !under(target_root, src_root),
        !under(src_root, target_root),
        normalize(key).len() > 0,
    ensures
        !under(destination_of(src_root, target_root, key), src_root),
{
    let ns = normalize(src_root);
    let nt = normalize(target_root);
    let rel = relative_to(key, src_root);
    let d = destination_of(src_root, target_root, key);
    lemma_relative_to_nonempty(key, src_root);
    lemma_relative_to_shape(key, src_root);
    lemma_normalize_shape(target_root);
    lemma_normalize_shape(src_root);
    lemma_trim_start_at(rel, 0);
    assert(rel.skip(0) =~= rel);
    // the destination is the target, one delimiter, and the relative path
    let te = trim_end(target_root);
    lemma_trim_end_shape(target_root);
    lemma_trim_start_shape(target_root);
    lemma_normalize_trims_commute(target_root);
    assert(d == te.push('/') + rel);
    let lead = te.len() - nt.len();
    assert(trim_start(te) == nt);
    lemma_trim_start_shape(te);
    assert forall|i: int| 0 <= i < lead implies d[i] == '/' by {
        assert(d[i] == te[i]);
    }
    assert(d[lead] == nt[0]) by {
        assert(te.skip(lead)[0] == te[lead]);
        assert(d[lead] == te[lead]);
    }
    lemma_trim_start_at(d, lead);
    let u = d.skip(lead);
    assert(u =~= nt.push('/') + rel);
    assert(u.last() == rel.last());
    lemma_trim_end_at(u, u.len() as int);
    assert(u.take(u.len() as int) =~= u);
    let nd = normalize(d);
    assert(nd == nt.push('/') + rel);
    assert(nd.take(nt.len() as int) =~= nt);
    assert(nd[nt.len() as int] == '/');
    if under(d, src_root) {
        assert(nd != ns) by {
            if nd == ns {
                assert(strictly_under(ns, nt));
            }
        }
        assert(strictly_under(nd, ns));
        if ns.len() < nt.len() {
            assert(nt.take(ns.len() as int) =~= nd.take(ns.len() as int));
            assert(nt[ns.len() as int] == nd[ns.len() as int]);
            assert(strictly_under(nt, ns));
        } else if ns.len() == nt.len() {
            assert(ns =~= nt);
        } else {
            assert(ns.take(nt.len() as int) =~= nd.take(nt.len() as int));
            assert(ns[nt.len() as int] == nd[nt.len() as int]);
            assert(strictly_under(ns, nt));
        }
    }
}

/// Everything a tree operation writes lies below the target root: each
/// destination starts with the target root, trimmed of trailing delimiters,
/// followed by one delimiter.
pub proof fn lemma_destination_below_target(
    src_root: Seq<char>,
    target_root: Seq<char>,
    key: Seq<char>,
)
    requires
        target_root.len() > 0,
    ensures
        destination_of(src_root, target_root, key).len() > trim_end(target_root).len(),
        destination_of(src_root, target_root, key).take(trim_end(target_root).len() as int + 1)
            == trim_end(target_root).push('/'),
{
    let d = destination_of(src_root, target_root, key);
    let t = trim_end(target_root);
    assert(d.take(t.len() as int + 1) =~= t.push('/'));
}

/// What a transfer is called while it runs: `Copying` or `Moving`, then the
/// source.
pub open spec fn progress_label(mode: TransferMode, source: Seq<char>) -> Seq<char> {
    match mode {
        TransferMode::Copy => "Copying "@ + source,
        TransferMode::Move => "Moving "@ + source,
    }
}

/// The line that reports a completed transfer.
pub open spec fn completion_line(
    mode: TransferMode,
    source: Seq<char>,
    destination: Seq<char>,
    bytes: u64,
) -> Seq<char> {
    (match mode {
        TransferMode::Copy => "\n✅ Copied: "@,
        TransferMode::Move => "\n✅ Moved: "@,
    }) + source + " → "@ + destination + " ("@ + decimal(bytes as nat) + " bytes)"@
}

/// Sets up the transfer of one object: it is read by ranges of one chunk, and
/// its progress is reported once per chunk.
pub fn start_transfer(mode: TransferMode, task: &TransferTask) -> (r: (
    Transfer,
    ConsoleProgressReporter,
))
    ensures
        r.0 == (Transfer {
            size: Some(task.size_hint),
            chunk_size: DEFAULT_CHUNK_SIZE as u64,
            transferred: 0,
            finished: false,
        }),
        r.1.label() == progress_label(mode, task.source@),
        r.1.total_bytes() == Some(task.size_hint),
        r.1.step_bytes() == DEFAULT_CHUNK_SIZE as u64,
{
    let label = match mode {
        TransferMode::Copy => String::from_str("Copying ").concat(task.source.as_str()),
        TransferMode::Move => String::from_str("Moving ").concat(task.source.as_str()),
    };
    let reporter = ConsoleProgressReporter::new(
        label,
        Some(task.size_hint),
        DEFAULT_CHUNK_SIZE as u64,
    );
    (Transfer::ranged(task.size_hint, DEFAULT_CHUNK_SIZE as u64), reporter)
}

/// Words the report of a completed transfer.
pub fn render_completion(mode: TransferMode, task: &TransferTask, bytes: u64) -> (r: String)
    ensures
        r@ == completion_line(mode, task.source@, task.destination@, bytes),
{
    let head = match mode {
        TransferMode::Copy => "\n✅ Copied: ",
        TransferMode::Move => "\n✅ Moved: ",
    };
    let r = String::from_str(head).concat(task.source.as_str()).concat(" → ").concat(
        task.destination.as_str(),
    ).concat(" (").concat(decimal_string(bytes as u128).as_str()).concat(" bytes)");
    assert(r@ =~= completion_line(mode, task.source@, task.destination@, bytes));
    r
}

/// Different objects of the source tree go to different destinations: no
/// transfer of a tree operation overwrites what another one wrote. This holds
/// of keys below the source that hold no doubled delimiter.
pub proof fn lemma_destinations_distinct(
    src_root: Seq<char>,
    target_root: Seq<char>,
    first: Seq<char>,
    second: Seq<char>,
)
    requires
        target_root.len() > 0,
        normalize(src_root).len() > 0,
        strictly_under(normalize(first), normalize(src_root)),
        strictly_under(normalize(second), normalize(src_root)),
        !has_doubled_delimiter(first),
        !has_doubled_delimiter(second),
        normalize(first) != normalize(second),
    ensures
        destination_of(src_root, target_root, first) != destination_of(
            src_root,
            target_root,
            second,
        ),
{
    let b = normalize(src_root);
    let t = trim_end(target_root).push('/');
    let r1 = relative_to(first, src_root);
    let r2 = relative_to(second, src_root);
    lemma_relative_to_completes_key(first, src_root);
    lemma_relative_to_completes_key(second, src_root);
    lemma_relative_to_is_suffix(first, src_root);
    lemma_relative_to_is_suffix(second, src_root);
    lemma_trim_start_at(r1, 0);
    lemma_trim_start_at(r2, 0);
    assert(r1.skip(0) =~= r1);
    assert(r2.skip(0) =~= r2);
    let d1 = destination_of(src_root, target_root, first);
    let d2 = destination_of(src_root, target_root, second);
    assert(d1 == t + r1);
    assert(d2 == t + r2);
    if d1 == d2 {
        assert(r1 =~= d1.skip(t.len() as int));
        assert(r2 =~= d2.skip(t.len() as int));
        assert(normalize(first) == b.push('/') + r1);
        assert(normalize(second) == b.push('/') + r2);
    }
}

} // verus!
