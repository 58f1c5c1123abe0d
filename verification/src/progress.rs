//! Progress of a transfer, as a percentage that is shown now and then.

use vstd::prelude::*;
use vstd::string::*;
use crate::text::{decimal, decimal_string};

verus! {

/// Reports the progress of one transfer. It holds no count of its own: the
/// transfer tells it the bytes moved so far, and it answers with the line to
/// show, if one is due.
#[derive(Debug)]
pub struct ConsoleProgressReporter {
    label: String,
    total_bytes: Option<u64>,
    step_bytes: u64,
}

/// The share of `total` that `processed` makes up, in whole percent, rounded
/// down, and capped at the largest value a 32-bit number holds.
pub open spec fn percent_of(processed: u64, total: u64) -> int
    recommends
        total > 0,
{
    let exact = (processed as int * 100) / (total as int);
    if exact > u32::MAX as int {
        u32::MAX as int
    } else {
        exact
    }
}

/// The line that shows a percentage: a carriage return, a space, the label, a
/// colon, a space, the number and a percent sign.
pub open spec fn progress_line(label: Seq<char>, percent: int) -> Seq<char>
    recommends
        percent >= 0,
{
    seq!['\r', ' '] + label + seq![':', ' '] + decimal(percent as nat) + seq!['%']
}

impl ConsoleProgressReporter {
    #[verifier::type_invariant]
    spec fn well_formed(self) -> bool {
        self.step_bytes >= 1
    }

    /// What the progress is of.
    pub closed spec fn label(&self) -> Seq<char> {
        self.label@
    }

    /// The size of the whole transfer, if known.
    pub closed spec fn total_bytes(&self) -> Option<u64> {
        self.total_bytes
    }

    /// The distance between two reports, in bytes. At least 1.
    pub closed spec fn step_bytes(&self) -> u64 {
        self.step_bytes
    }

    /// Whether a report is due at `processed` bytes: the total is known and
    /// not zero, and `processed` is a multiple of the step.
    pub open spec fn due(&self, processed: u64) -> bool {
        &&& self.total_bytes() matches Some(total)
        &&& total != 0
        &&& processed as int % self.step_bytes() as int == 0
    }

    /// A reporter for one transfer. A step of zero is taken as one.
    pub fn new(label: String, total_bytes: Option<u64>, step_bytes: u64) -> (r:
        ConsoleProgressReporter)
        ensures
            r.label() == label@,
            r.total_bytes() == total_bytes,
            r.step_bytes() == if step_bytes == 0 {
                1
            } else {
                step_bytes
            },
            r.step_bytes() >= 1,
    {
        let step: u64 = if step_bytes == 0 {
            1
        } else {
            step_bytes
        };
        ConsoleProgressReporter { label, total_bytes, step_bytes: step }
    }

    /// The percentage to show at `processed` bytes, if a report is due.
    pub fn percent(&self, processed_bytes: u64) -> (r: Option<u32>)
        ensures
            r is Some == self.due(processed_bytes),
            r matches Some(p) ==> p as int == percent_of(
                processed_bytes,
                self.total_bytes()->Some_0,
            ),
    {
        proof {
            use_type_invariant(self);
        }
        match self.total_bytes {
            None => None,
            Some(total) => {
                if total == 0 || processed_bytes % self.step_bytes != 0 {
                    None
                } else {
                    let exact: u128 = (processed_bytes as u128 * 100) / (total as u128);
                    if exact > 4294967295 {
                        Some(4294967295)
                    } else {
                        Some(exact as u32)
                    }
                }
            },
        }
    }

    /// The line to show at `processed` bytes, if a report is due.
    pub fn maybe_report(&self, processed_bytes: u64) -> (r: Option<String>)
        ensures
            r is Some == self.due(processed_bytes),
            r matches Some(line) ==> line@ == progress_line(
                self.label(),
                percent_of(processed_bytes, self.total_bytes()->Some_0),
            ),
    {
        match self.percent(processed_bytes) {
            None => None,
            Some(p) => {
                proof {
                    reveal_strlit("\r ");
                    reveal_strlit(": ");
                    reveal_strlit("%");
                }
                let number = decimal_string(p as u128);
                let line = String::from_str("\r ").concat(self.label.as_str()).concat(": ").concat(
                    number.as_str(),
                ).concat("%");
                assert(line@ =~= progress_line(self.label(), p as int));
                Some(line)
            },
        }
    }
}

/// A finished transfer of known, non-zero size shows as 100 percent, and no
/// percentage is ever shown beyond the cap.
pub proof fn lemma_percent_bounds(processed: u64, total: u64)
    requires
        total > 0,
    ensures
        0 <= percent_of(processed, total) <= u32::MAX,
        processed == total ==> percent_of(processed, total) == 100,
        processed <= total ==> percent_of(processed, total) <= 100,
{
    assert((processed as int * 100) / (total as int) >= 0) by (nonlinear_arith)
        requires
            total > 0,
            processed >= 0,
    ;
    if processed == total {
        assert((total as int * 100) / (total as int) == 100) by (nonlinear_arith)
            requires
                total > 0,
        ;
    }
    if processed <= total {
        assert((processed as int * 100) / (total as int) <= 100) by (nonlinear_arith)
            requires
                total > 0,
                0 <= processed <= total,
        ;
    }
}

} // verus!
