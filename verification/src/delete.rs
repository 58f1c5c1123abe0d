//! Deleting several paths in one call.
//!
//! Paths are handled one after the other. A path that does not exist is
//! recorded as failed and the run goes on. A directory met without the
//! recursive flag stops the whole call at once: that is a mistake in how the
//! call was made, not a failure of one item. A removal that fails is recorded
//! and the run goes on. At the end all recorded failures are reported
//! together. What was deleted stays deleted.

use vstd::prelude::*;
use vstd::string::*;
use crate::entry::EntryMode;
use crate::error::{string_views, Error, ErrorView};

verus! {

/// What to do with a path after looking it up.
#[derive(Debug, Clone, Copy, PartialEq, Eq, Structural)]
pub enum DeleteStep {
    /// The path does not exist. It has been recorded as failed; go on with
    /// the next path.
    Skip,
    /// Remove the path and everything below it, then report how that went.
    Remove,
}

/// One path of a deletion together with what the backend said about it.
#[derive(Debug, Clone, PartialEq, Eq)]
pub struct DeleteTarget {
    pub path: String,
    /// What a metadata lookup found, `None` if the path does not exist.
    pub stat: Option<EntryMode>,
    /// Whether removing the path succeeds. It matters only where a removal
    /// is attempted.
    pub removal_succeeds: bool,
}

/// The mathematical value of a [`DeleteTarget`].
pub struct DeleteTargetView {
    pub path: Seq<char>,
    pub stat: Option<EntryMode>,
    pub removal_succeeds: bool,
}

impl View for DeleteTarget {
    type V = DeleteTargetView;

    open spec fn view(&self) -> DeleteTargetView {
        DeleteTargetView {
            path: self.path@,
            stat: self.stat,
            removal_succeeds: self.removal_succeeds,
        }
    }
}

/// The values of a list of targets.
pub open spec fn target_views(v: Seq<DeleteTarget>) -> Seq<DeleteTargetView> {
    Seq::new(v.len(), |i: int| v[i]@)
}

/// Whether a target stops the whole call: it is a directory and the call is
/// not recursive.
pub open spec fn refused(t: DeleteTargetView, recursive: bool) -> bool {
    t.stat == Some(EntryMode::Dir) && !recursive
}

/// Whether a target ends up among the failures: it does not exist, or its
/// removal fails.
pub open spec fn fails(t: DeleteTargetView) -> bool {
    t.stat is None || !t.removal_succeeds
}

/// The paths that fail, in the order they were given.
pub open spec fn failures(targets: Seq<DeleteTargetView>) -> Seq<Seq<char>>
    decreases targets.len(),
{
    if targets.len() == 0 {
        Seq::empty()
    } else if fails(targets.last()) {
        failures(targets.drop_last()).push(targets.last().path)
    } else {
        failures(targets.drop_last())
    }
}

/// The position of the first target that stops the call, if there is one.
pub open spec fn first_refused(targets: Seq<DeleteTargetView>, recursive: bool) -> Option<int>
    decreases targets.len(),
{
    if targets.len() == 0 {
        None
    } else {
        match first_refused(targets.drop_last(), recursive) {
            Some(i) => Some(i),
            None => if refused(targets.last(), recursive) {
                Some(targets.len() - 1)
            } else {
                None
            },
        }
    }
}

/// How a deletion ends.
///
/// * If some directory is met without the recursive flag, the call ends there
///   with that path, whatever failed before.
/// * Else, if any path failed, the call ends with all of them.
/// * Else it succeeds.
pub open spec fn deletion_result(targets: Seq<DeleteTargetView>, recursive: bool) -> Result<
    (),
    ErrorView,
> {
    match first_refused(targets, recursive) {
        Some(i) => Err(ErrorView::DirectoryDeletionNotRecursive { path: targets[i].path }),
        None => if failures(targets).len() > 0 {
            Err(ErrorView::PartialDeletion { failed_paths: failures(targets) })
        } else {
            Ok(())
        },
    }
}

/// Whether the removal of the target at `i` is attempted: the run gets that
/// far, and the path exists.
pub open spec fn removal_attempted(
    targets: Seq<DeleteTargetView>,
    recursive: bool,
    i: int,
) -> bool {
    &&& 0 <= i < targets.len()
    &&& targets[i].stat is Some
    &&& match first_refused(targets, recursive) {
        Some(k) => i < k,
        None => true,
    }
}

/// A deletion in progress: the flag it was started with and the paths that
/// failed so far.
#[derive(Debug)]
pub struct DeleteRun {
    recursive: bool,
    failed: Vec<String>,
}

impl DeleteRun {
    /// Whether directories may be deleted.
    pub closed spec fn recursive(&self) -> bool {
        self.recursive
    }

    /// The paths recorded as failed so far, oldest first.
    pub closed spec fn failed(&self) -> Seq<Seq<char>> {
        string_views(self.failed@)
    }

    /// Starts a deletion with nothing failed yet.
    pub fn new(recursive: bool) -> (r: DeleteRun)
        ensures
            r.recursive() == recursive,
            r.failed() == Seq::<Seq<char>>::empty(),
    {
        let r = DeleteRun { recursive, failed: Vec::new() };
        assert(r.failed() =~= Seq::<Seq<char>>::empty());
        r
    }

    /// Decides what to do with `path`, given what a metadata lookup found
    /// (`None` if the path does not exist).
    ///
    /// A missing path is recorded as failed and skipped. A directory in a
    /// run that is not recursive is an error that ends the call. Everything
    /// else is to be removed.
    pub fn check(&mut self, path: &str, stat: Option<EntryMode>) -> (r: Result<DeleteStep, Error>)
        ensures
            final(self).recursive() == old(self).recursive(),
            match stat {
                None => r == Ok::<DeleteStep, Error>(DeleteStep::Skip) && final(self).failed()
                    == old(self).failed().push(path@),
                Some(mode) => {
                    &&& final(self).failed() == old(self).failed()
                    &&& if mode == EntryMode::Dir && !old(self).recursive() {
                        r is Err && r->Err_0@ == (ErrorView::DirectoryDeletionNotRecursive {
                            path: path@,
                        })
                    } else {
                        r == Ok::<DeleteStep, Error>(DeleteStep::Remove)
                    }
                },
            },
    {
        match stat {
            None => {
                self.failed.push(String::from_str(path));
                assert(self.failed() =~= old(self).failed().push(path@));
                Ok(DeleteStep::Skip)
            },
            Some(mode) => {
                if mode == EntryMode::Dir && !self.recursive {
                    Err(Error::DirectoryDeletionNotRecursive { path: String::from_str(path) })
                } else {
                    Ok(DeleteStep::Remove)
                }
            },
        }
    }

    /// Takes note of how the removal of `path` went: a failed one is
    /// recorded, a successful one leaves no trace.
    pub fn record_removal(&mut self, path: &str, succeeded: bool)
        ensures
            final(self).recursive() == old(self).recursive(),
            final(self).failed() == if succeeded {
                old(self).failed()
            } else {
                old(self).failed().push(path@)
            },
    {
        if !succeeded {
            self.failed.push(String::from_str(path));
            assert(self.failed() =~= old(self).failed().push(path@));
        }
    }

    /// Ends the run: success if nothing failed, else one error that names
    /// every failed path.
    pub fn finish(self) -> (r: Result<(), Error>)
        ensures
            self.failed().len() == 0 ==> r is Ok,
            self.failed().len() > 0 ==> r is Err && r->Err_0@ == (ErrorView::PartialDeletion {
                failed_paths: self.failed(),
            }),
    {
        if self.failed.len() == 0 {
            Ok(())
        } else {
            Err(Error::PartialDeletion { failed_paths: self.failed })
        }
    }
}

/// Runs a whole deletion over targets whose lookups and removals are already
/// known, and returns how the call ends.
pub fn delete_all(targets: &Vec<DeleteTarget>, recursive: bool) -> (r: Result<(), Error>)
    ensures
        match r {
            Ok(_) => deletion_result(target_views(targets@), recursive) == Ok::<(), ErrorView>(()),
            Err(e) => deletion_result(target_views(targets@), recursive) == Err::<(), ErrorView>(
                e@,
            ),
        },
{
    let mut run = DeleteRun::new(recursive);
    let ghost all = target_views(targets@);
    let mut i: usize = 0;
    while i < targets.len()
        invariant
            i <= targets.len(),
            all == target_views(targets@),
            run.recursive() == recursive,
            run.failed() == failures(all.take(i as int)),
            first_refused(all.take(i as int), recursive) is None,
        decreases targets.len() - i,
    {
        let target = &targets[i];
        proof {
            assert(all.take(i + 1).drop_last() =~= all.take(i as int));
            assert(all.take(i + 1).last() == target@);
        }
        match run.check(target.path.as_str(), target.stat) {
            Err(e) => {
                proof {
                    lemma_first_refused_prefix(all, recursive, i + 1);
                }
                return Err(e);
            },
            Ok(DeleteStep::Skip) => {},
            Ok(DeleteStep::Remove) => {
                run.record_removal(target.path.as_str(), target.removal_succeeds);
            },
        }
        i += 1;
    }
    assert(all.take(i as int) =~= all);
    run.finish()
}

/// What stops a prefix of a run stops the whole run, at the same place.
pub proof fn lemma_first_refused_prefix(targets: Seq<DeleteTargetView>, recursive: bool, n: int)
    requires
        0 <= n <= targets.len(),
        first_refused(targets.take(n), recursive) is Some,
    ensures
        first_refused(targets, recursive) == first_refused(targets.take(n), recursive),
    decreases targets.len() - n,
{
    if n == targets.len() {
        assert(targets.take(n) =~= targets);
    } else {
        assert(targets.take(n + 1).drop_last() =~= targets.take(n));
        lemma_first_refused_prefix(targets, recursive, n + 1);
    }
}

/// The place where a run stops holds a refused target, and no target before
/// it is refused.
pub proof fn lemma_first_refused_is_first(targets: Seq<DeleteTargetView>, recursive: bool)
    ensures
        match first_refused(targets, recursive) {
            Some(i) => {
                &&& 0 <= i < targets.len()
                &&& refused(targets[i], recursive)
                &&& forall|j: int| 0 <= j < i ==> !refused(#[trigger] targets[j], recursive)
            },
            None => forall|j: int|
                0 <= j < targets.len() ==> !refused(#[trigger] targets[j], recursive),
        },
    decreases targets.len(),
{
    if targets.len() > 0 {
        let front = targets.drop_last();
        lemma_first_refused_is_first(front, recursive);
        match first_refused(front, recursive) {
            Some(i) => {
                assert(front[i] == targets[i]);
                assert forall|j: int| 0 <= j < i implies !refused(
                    #[trigger] targets[j],
                    recursive,
                ) by {
                    assert(front[j] == targets[j]);
                }
            },
            None => {
                assert forall|j: int| 0 <= j < targets.len() - 1 implies !refused(
                    #[trigger] targets[j],
                    recursive,
                ) by {
                    assert(front[j] == targets[j]);
                }
            },
        }
    }
}

/// The reported failures are exactly the paths that failed: every failing
/// target's path is reported, and every reported path belongs to a failing
/// target. A recursive run never stops early, so it ends in success exactly
/// when no target failed.
pub proof fn lemma_failures_exact(targets: Seq<DeleteTargetView>)
    ensures
        failures(targets).len() <= targets.len(),
        forall|i: int|
            0 <= i < targets.len() && fails(#[trigger] targets[i]) ==> failures(targets).contains(
                targets[i].path,
            ),
        forall|k: int|
            0 <= k < failures(targets).len() ==> exists|i: int|
                0 <= i < targets.len() && fails(targets[i]) && targets[i].path
                    == #[trigger] failures(targets)[k],
        failures(targets).len() == 0 <==> forall|i: int|
            0 <= i < targets.len() ==> !fails(#[trigger] targets[i]),
    decreases targets.len(),
{
    if targets.len() > 0 {
        let front = targets.drop_last();
        let last = targets.last();
        lemma_failures_exact(front);
        let f = failures(targets);
        let ff = failures(front);
        assert forall|i: int| 0 <= i < targets.len() && fails(#[trigger] targets[i]) implies f.contains(
            targets[i].path,
        ) by {
            if i < front.len() {
                assert(front[i] == targets[i]);
                assert(ff.contains(front[i].path));
                let k = choose|k: int| 0 <= k < ff.len() && ff[k] == front[i].path;
                assert(f[k] == targets[i].path);
            } else {
                assert(f[f.len() - 1] == last.path);
            }
        }
        assert forall|k: int| 0 <= k < f.len() implies exists|i: int|
            0 <= i < targets.len() && fails(targets[i]) && targets[i].path == #[trigger] f[k] by {
            if k < ff.len() {
                assert(f[k] == ff[k]);
                let i = choose|i: int|
                    0 <= i < front.len() && fails(front[i]) && front[i].path == ff[k];
                assert(front[i] == targets[i]);
            } else {
                assert(targets[targets.len() - 1] == last);
            }
        }
        if f.len() == 0 {
            assert forall|i: int| 0 <= i < targets.len() implies !fails(#[trigger] targets[i]) by {
                if i < front.len() {
                    assert(front[i] == targets[i]);
                }
            }
        } else {
            if ff.len() > 0 {
                let i = choose|i: int| 0 <= i < front.len() && fails(#[trigger] front[i]);
                assert(front[i] == targets[i]);
            }
        }
    }
}

} // verus!
