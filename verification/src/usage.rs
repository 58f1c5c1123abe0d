//! How much space the objects under a path take.
//!
//! The usage of a path is a fold over its recursive listing: the sizes of the
//! files add up and the files are counted. Directories add nothing to either.

use vstd::prelude::*;
use vstd::string::*;
use crate::entry::{entry_views, StorageEntry, StorageEntryView};
use crate::size::{format_size, size_text};
use crate::stat::line_views;
use crate::text::{decimal, decimal_string};

verus! {

/// The totals of a usage run.
#[derive(Debug, Clone, Copy, PartialEq, Eq, Structural)]
pub struct UsageTotals {
    /// The sum of the sizes of the files, in bytes.
    pub total_size: u64,
    /// The number of files.
    pub file_count: u64,
}

/// The sum of the sizes of the files among the entries.
pub open spec fn size_sum(entries: Seq<StorageEntryView>) -> nat
    decreases entries.len(),
{
    if entries.len() == 0 {
        0
    } else if entries.last().is_directory {
        size_sum(entries.drop_last())
    } else {
        size_sum(entries.drop_last()) + entries.last().size as nat
    }
}

/// The number of files among the entries.
pub open spec fn file_count(entries: Seq<StorageEntryView>) -> nat
    decreases entries.len(),
{
    if entries.len() == 0 {
        0
    } else if entries.last().is_directory {
        file_count(entries.drop_last())
    } else {
        file_count(entries.drop_last()) + 1
    }
}

/// A number, or the largest a 64-bit counter holds if it is beyond that.
pub open spec fn capped(n: nat) -> u64 {
    if n > u64::MAX as nat {
        u64::MAX
    } else {
        n as u64
    }
}

/// The totals after one more entry.
pub open spec fn totals_with(totals: UsageTotals, entry: StorageEntryView) -> UsageTotals {
    if entry.is_directory {
        totals
    } else {
        UsageTotals {
            total_size: capped((totals.total_size + entry.size) as nat),
            file_count: capped((totals.file_count + 1) as nat),
        }
    }
}

/// The line for one entry in the detailed listing: its size for people, or a
/// dash for a directory, then a space and its key.
pub open spec fn usage_line(entry: StorageEntryView) -> Seq<char> {
    if entry.is_directory {
        seq!['-', ' '] + entry.key
    } else {
        size_text(entry.size as nat) + seq![' '] + entry.key
    }
}

/// The two lines of the summary: the total size for people followed by the
/// path, and the number of files.
pub open spec fn summary_lines(totals: UsageTotals, path: Seq<char>) -> Seq<Seq<char>> {
    seq![
        size_text(totals.total_size as nat) + seq![' '] + path,
        "Total files: "@ + decimal(totals.file_count as nat),
    ]
}

/// What a usage run shows: in summary mode the summary, else one line per
/// entry in the order of the listing.
pub open spec fn usage_report(path: Seq<char>, entries: Seq<StorageEntryView>, summary: bool) -> Seq<
    Seq<char>,
> {
    if summary {
        summary_lines(
            UsageTotals {
                total_size: capped(size_sum(entries)),
                file_count: capped(file_count(entries)),
            },
            path,
        )
    } else {
        Seq::new(entries.len(), |i: int| usage_line(entries[i]))
    }
}

impl UsageTotals {
    /// The totals of nothing.
    pub fn new() -> (r: UsageTotals)
        ensures
            r == (UsageTotals { total_size: 0, file_count: 0 }),
    {
        UsageTotals { total_size: 0, file_count: 0 }
    }

    /// Takes one more entry into account. Both totals stop at the largest
    /// number they can hold.
    pub fn add(&mut self, entry: &StorageEntry)
        ensures
            *final(self) == totals_with(*old(self), entry@),
    {
        if !entry.is_directory {
            self.total_size = if entry.size <= u64::MAX - self.total_size {
                self.total_size + entry.size
            } else {
                u64::MAX
            };
            self.file_count = if self.file_count < u64::MAX {
                self.file_count + 1
            } else {
                u64::MAX
            };
        }
    }
}

/// Adds up a whole listing.
pub fn summarize(entries: &Vec<StorageEntry>) -> (r: UsageTotals)
    ensures
        r.total_size == capped(size_sum(entry_views(entries@))),
        r.file_count == capped(file_count(entry_views(entries@))),
        r.file_count == file_count(entry_views(entries@)),
{
    let ghost all = entry_views(entries@);
    let mut totals = UsageTotals::new();
    let mut i: usize = 0;
    assert(all.take(0) =~= Seq::<StorageEntryView>::empty());
    while i < entries.len()
        invariant
            i <= entries.len(),
            all == entry_views(entries@),
            totals.total_size == capped(size_sum(all.take(i as int))),
            totals.file_count == file_count(all.take(i as int)),
            file_count(all.take(i as int)) <= i,
        decreases entries.len() - i,
    {
        proof {
            assert(all.take(i + 1).drop_last() =~= all.take(i as int));
            assert(all.take(i + 1).last() == entries@[i as int]@);
        }
        totals.add(&entries[i]);
        i += 1;
    }
    assert(all.take(i as int) =~= all);
    totals
}

/// Renders the line of one entry for the detailed listing.
pub fn entry_usage_line(entry: &StorageEntry) -> (r: String)
    ensures
        r@ == usage_line(entry@),
{
    proof {
        reveal_strlit("- ");
        reveal_strlit(" ");
    }
    if entry.is_directory {
        let r = String::from_str("- ").concat(entry.key.as_str());
        assert(r@ =~= usage_line(entry@));
        r
    } else {
        let r = format_size(entry.size).concat(" ").concat(entry.key.as_str());
        assert(r@ =~= usage_line(entry@));
        r
    }
}

/// Renders the summary of a run over `path`.
pub fn render_summary(totals: UsageTotals, path: &str) -> (r: Vec<String>)
    ensures
        line_views(r@) == summary_lines(totals, path@),
{
    proof {
        reveal_strlit(" ");
    }
    let first = format_size(totals.total_size).concat(" ").concat(path);
    let second = String::from_str("Total files: ").concat(
        decimal_string(totals.file_count as u128).as_str(),
    );
    assert(first@ =~= size_text(totals.total_size as nat) + seq![' '] + path@);
    assert(second@ =~= "Total files: "@ + decimal(totals.file_count as nat));
    let mut lines: Vec<String> = Vec::new();
    lines.push(first);
    lines.push(second);
    assert(line_views(lines@) =~= summary_lines(totals, path@));
    lines
}

/// Computes what a usage run over `path` shows for a recursive listing.
pub fn calculate_usage(path: &str, entries: &Vec<StorageEntry>, summary: bool) -> (r: Vec<String>)
    ensures
        line_views(r@) == usage_report(path@, entry_views(entries@), summary),
{
    if summary {
        render_summary(summarize(entries), path)
    } else {
        let mut lines: Vec<String> = Vec::new();
        let mut i: usize = 0;
        while i < entries.len()
            invariant
                i <= entries.len(),
                lines@.len() == i,
                forall|j: int| 0 <= j < i ==> (#[trigger] lines@[j])@ == usage_line(entries@[j]@),
            decreases entries.len() - i,
        {
            lines.push(entry_usage_line(&entries[i]));
            i += 1;
        }
        assert(line_views(lines@) =~= usage_report(path@, entry_views(entries@), summary));
        lines
    }
}

/// Directories add nothing: the totals of a listing are those of its files
/// alone, and a listing of directories only has totals of zero.
pub proof fn lemma_directories_add_nothing(entries: Seq<StorageEntryView>)
    requires
        forall|i: int| 0 <= i < entries.len() ==> (#[trigger] entries[i]).is_directory,
    ensures
        size_sum(entries) == 0,
        file_count(entries) == 0,
    decreases entries.len(),
{
    if entries.len() > 0 {
        assert(entries.last() == entries[entries.len() - 1]);
        assert forall|i: int| 0 <= i < entries.drop_last().len() implies (
        #[trigger] entries.drop_last()[i]).is_directory by {
            assert(entries.drop_last()[i] == entries[i]);
        }
        lemma_directories_add_nothing(entries.drop_last());
    }
}

/// The totals of two listings, one after the other, are the sums of their
/// totals: the order in which a backend lists does not matter to the result.
pub proof fn lemma_totals_add_up(a: Seq<StorageEntryView>, b: Seq<StorageEntryView>)
    ensures
        size_sum(a + b) == size_sum(a) + size_sum(b),
        file_count(a + b) == file_count(a) + file_count(b),
    decreases b.len(),
{
    if b.len() == 0 {
        assert(a + b =~= a);
    } else {
        assert((a + b).drop_last() =~= a + b.drop_last());
        assert((a + b).last() == b.last());
        lemma_totals_add_up(a, b.drop_last());
    }
}

/// The number of files never exceeds the number of entries.
pub proof fn lemma_file_count_bounded(entries: Seq<StorageEntryView>)
    ensures
        file_count(entries) <= entries.len(),
    decreases entries.len(),
{
    if entries.len() > 0 {
        lemma_file_count_bounded(entries.drop_last());
    }
}

} // verus!
