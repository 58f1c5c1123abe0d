//! Running the transfers of a tree operation side by side, within bounds.
//!
//! The actions of a tree operation are cut into waves. The actions of one wave
//! may run at the same time; a wave starts only when the one before has
//! completed. A directory creation is a wave of its own, so every directory
//! that the listing names before a file exists before the transfer of that
//! file begins. Transfers that follow one another share a wave, up to a limit
//! that caps the memory and the connections an operation takes.

use vstd::prelude::*;
use crate::copy::{action_views, EntryAction, EntryActionView};

verus! {

/// Transfers that may run at the same time, by default.
pub const DEFAULT_CONCURRENCY: usize = 10;

/// A run of actions that may be carried out together: those at the positions
/// from `start` up to, but not including, `end`.
#[derive(Debug, Clone, Copy, PartialEq, Eq, Structural)]
pub struct Wave {
    pub start: usize,
    pub end: usize,
}

/// The most actions a wave may hold: the limit, but at least one.
pub open spec fn wave_capacity(limit: nat) -> nat {
    if limit == 0 {
        1
    } else {
        limit
    }
}

/// How many transfers follow one another from position `from` on, counting no
/// more than `budget`.
pub open spec fn run_more(actions: Seq<EntryActionView>, from: int, budget: nat) -> nat
    decreases budget,
{
    if budget == 0 || from < 0 || from >= actions.len() || !(actions[from] is Transfer) {
        0
    } else {
        1 + run_more(actions, from + 1, (budget - 1) as nat)
    }
}

/// The length of the wave that starts at `start`: one for anything but a
/// transfer; for a transfer, the run of transfers it starts, up to the
/// capacity.
pub open spec fn wave_len(actions: Seq<EntryActionView>, start: int, limit: nat) -> nat {
    if 0 <= start < actions.len() && actions[start] is Transfer {
        1 + run_more(actions, start + 1, (wave_capacity(limit) - 1) as nat)
    } else {
        1
    }
}

/// The waves of the actions from position `start` on, as pairs of start and
/// end.
pub open spec fn waves_from(actions: Seq<EntryActionView>, start: int, limit: nat) -> Seq<
    (int, int),
>
    decreases actions.len() - start,
    via waves_from_decreases
{
    if start < 0 || start >= actions.len() {
        Seq::empty()
    } else {
        seq![(start, start + wave_len(actions, start, limit))] + waves_from(
            actions,
            start + wave_len(actions, start, limit),
            limit,
        )
    }
}

#[via_fn]
proof fn waves_from_decreases(actions: Seq<EntryActionView>, start: int, limit: nat) {
    if 0 <= start < actions.len() {
        lemma_run_more(actions, start + 1, (wave_capacity(limit) - 1) as nat);
        assert(1 <= wave_len(actions, start, limit) <= actions.len() - start);
    }
}

/// The waves of a list of actions.
pub open spec fn waves_of(actions: Seq<EntryActionView>, limit: nat) -> Seq<(int, int)> {
    waves_from(actions, 0, limit)
}

/// The values of a list of waves.
pub open spec fn wave_views(v: Seq<Wave>) -> Seq<(int, int)> {
    Seq::new(v.len(), |i: int| (v[i].start as int, v[i].end as int))
}

/// Whether an action is a transfer.
fn is_transfer(action: &EntryAction) -> (r: bool)
    ensures
        r == (action@ is Transfer),
{
    match action {
        EntryAction::Transfer { .. } => true,
        _ => false,
    }
}

/// Cuts the actions of a tree operation into waves of at most `limit`
/// transfers. A limit of zero is taken as one.
pub fn schedule(actions: &Vec<EntryAction>, limit: usize) -> (r: Vec<Wave>)
    ensures
        wave_views(r@) == waves_of(action_views(actions@), limit as nat),
{
    let ghost all = action_views(actions@);
    let n: usize = actions.len();
    let capacity: usize = if limit == 0 {
        1
    } else {
        limit
    };
    let mut waves: Vec<Wave> = Vec::new();
    let mut i: usize = 0;
    assert(wave_views(waves@) + waves_from(all, 0, limit as nat) =~= waves_of(all, limit as nat));
    while i < n
        invariant
            n == actions.len(),
            all == action_views(actions@),
            capacity == wave_capacity(limit as nat),
            i <= n,
            wave_views(waves@) + waves_from(all, i as int, limit as nat) == waves_of(
                all,
                limit as nat,
            ),
        decreases n - i,
    {
        let mut j: usize = i + 1;
        if is_transfer(&actions[i]) {
            let mut budget: usize = capacity - 1;
            while budget > 0 && j < n && is_transfer(&actions[j])
                invariant
                    n == actions.len(),
                    all == action_views(actions@),
                    i < j <= n,
                    run_more(all, i + 1, (capacity - 1) as nat) == (j - i - 1) + run_more(
                        all,
                        j as int,
                        budget as nat,
                    ),
                decreases budget,
            {
                assert(all[j as int] == actions@[j as int]@);
                j += 1;
                budget -= 1;
            }
            proof {
                if j < n {
                    assert(all[j as int] == actions@[j as int]@);
                }
                assert(run_more(all, j as int, budget as nat) == 0);
            }
        }
        proof {
            assert(all[i as int] == actions@[i as int]@);
            assert(j == i + wave_len(all, i as int, limit as nat));
        }
        let ghost before = wave_views(waves@);
        waves.push(Wave { start: i, end: j });
        proof {
            assert(wave_views(waves@) =~= before + seq![(i as int, j as int)]);
            assert(waves_from(all, i as int, limit as nat) == seq![(i as int, j as int)]
                + waves_from(all, j as int, limit as nat));
            assert(wave_views(waves@) + waves_from(all, j as int, limit as nat) =~= before
                + waves_from(all, i as int, limit as nat));
        }
        i = j;
    }
    assert(wave_views(waves@) + Seq::<(int, int)>::empty() =~= wave_views(waves@));
    waves
}

/// A run of transfers holds nothing but transfers, stays within its budget,
/// and ends where the budget or the run does.
pub proof fn lemma_run_more(actions: Seq<EntryActionView>, from: int, budget: nat)
    requires
        0 <= from,
    ensures
        run_more(actions, from, budget) <= budget,
        from + run_more(actions, from, budget) <= actions.len() || run_more(
            actions,
            from,
            budget,
        ) == 0,
        forall|i: int|
            from <= i < from + run_more(actions, from, budget) ==> #[trigger] actions[i]
                is Transfer,
    decreases budget,
{
    if !(budget == 0 || from >= actions.len() || !(actions[from] is Transfer)) {
        lemma_run_more(actions, from + 1, (budget - 1) as nat);
    }
}

/// The waves cut the actions into consecutive runs: the first wave starts at
/// the first action, each wave starts where the one before ended, and the
/// last wave ends with the last action. So every action is carried out, once,
/// and in the order of the listing apart from what shares a wave.
///
/// No wave is empty or larger than the capacity, and a wave of more than one
/// action holds transfers only. So a directory is created in a wave of its
/// own, which has completed before any later transfer begins.
pub proof fn lemma_waves_shape(actions: Seq<EntryActionView>, start: int, limit: nat)
    requires
        0 <= start <= actions.len(),
    ensures
        start < actions.len() ==> waves_from(actions, start, limit).len() > 0 && waves_from(
            actions,
            start,
            limit,
        )[0].0 == start && waves_from(actions, start, limit).last().1 == actions.len(),
        start == actions.len() ==> waves_from(actions, start, limit).len() == 0,
        forall|k: int|
            0 <= k < waves_from(actions, start, limit).len() ==> {
                let w = #[trigger] waves_from(actions, start, limit)[k];
                &&& start <= w.0 < w.1 <= actions.len()
                &&& w.1 - w.0 <= wave_capacity(limit)
                &&& (w.1 - w.0 > 1 ==> forall|i: int|
                    w.0 <= i < w.1 ==> #[trigger] actions[i] is Transfer)
                &&& (k + 1 < waves_from(actions, start, limit).len() ==> waves_from(
                    actions,
                    start,
                    limit,
                )[k + 1].0 == w.1)
            },
    decreases actions.len() - start,
{
    if start < actions.len() {
        let len = wave_len(actions, start, limit);
        let end = start + len;
        lemma_run_more(actions, start + 1, (wave_capacity(limit) - 1) as nat);
        assert(end <= actions.len());
        lemma_waves_shape(actions, end, limit);
        let rest = waves_from(actions, end, limit);
        let all = waves_from(actions, start, limit);
        assert(all == seq![(start, end)] + rest);
        assert(all[0] == (start, end));
        if rest.len() > 0 {
            assert(all.last() == rest.last());
        }
        assert forall|k: int| 0 <= k < all.len() implies {
            let w = #[trigger] all[k];
            &&& start <= w.0 < w.1 <= actions.len()
            &&& w.1 - w.0 <= wave_capacity(limit)
            &&& (w.1 - w.0 > 1 ==> forall|i: int|
                w.0 <= i < w.1 ==> #[trigger] actions[i] is Transfer)
            &&& (k + 1 < all.len() ==> all[k + 1].0 == w.1)
        } by {
            if k == 0 {
                if all.len() > 1 {
                    assert(all[1] == rest[0]);
                }
            } else {
                assert(all[k] == rest[k - 1]);
                if k + 1 < all.len() {
                    assert(all[k + 1] == rest[k]);
                }
            }
        }
    }
}

} // verus!
