//! Asking before doing something that cannot be undone.
//!
//! The question is put and the answer is read by the caller. This module
//! words the question and reads the answer.

use vstd::prelude::*;
use vstd::string::*;
use crate::error::string_views;
use crate::stat::line_views;
use crate::text::{
    decimal, decimal_string, is_white_space, is_whitespace_char, lower_code, lowered, to_chars,
};

verus! {

/// How many paths a question names before it sums up the rest.
pub const PREVIEW_LIMIT: usize = 5;

/// Whether an answer says yes: without the white space around it, and with
/// the case of its letters ignored, it reads `y` or `yes`.
pub open spec fn says_yes(answer: Seq<char>) -> bool {
    exists|lo: int, hi: int|
        {
            &&& 0 <= lo <= hi <= answer.len()
            &&& forall|i: int| 0 <= i < lo ==> is_white_space(#[trigger] answer[i])
            &&& forall|i: int| hi <= i < answer.len() ==> is_white_space(#[trigger] answer[i])
            &&& #[trigger] reads_yes(answer.subrange(lo, hi))
        }
}

/// Whether a text reads `y` or `yes`, the case of its letters ignored.
pub open spec fn reads_yes(word: Seq<char>) -> bool {
    ||| word.len() == 1 && lower_code(word[0]) == 'y' as int
    ||| word.len() == 3 && lower_code(word[0]) == 'y' as int && lower_code(word[1]) == 'e' as int
        && lower_code(word[2]) == 's' as int
}

/// Reads the answer to a yes-or-no question. Anything but `y` or `yes` is a
/// no.
pub fn is_affirmative(answer: &str) -> (r: bool)
    ensures
        r == says_yes(answer@),
{
    let c = to_chars(answer);
    let n: usize = c.len();
    let mut lo: usize = 0;
    while lo < n && is_whitespace_char(c[lo])
        invariant
            lo <= n,
            n == c.len(),
            forall|i: int| 0 <= i < lo ==> is_white_space(#[trigger] c@[i]),
        decreases n - lo,
    {
        lo += 1;
    }
    let mut hi: usize = n;
    while hi > lo && is_whitespace_char(c[hi - 1])
        invariant
            lo <= hi <= n,
            n == c.len(),
            forall|i: int| hi <= i < n ==> is_white_space(#[trigger] c@[i]),
        decreases hi - lo,
    {
        hi -= 1;
    }
    let len: usize = hi - lo;
    let r = if len == 1 {
        lowered(c[lo]) == 121
    } else if len == 3 {
        lowered(c[lo]) == 121 && lowered(c[lo + 1]) == 101 && lowered(c[lo + 2]) == 115
    } else {
        false
    };
    proof {
        let a = answer@;
        let w = a.subrange(lo as int, hi as int);
        assert('y' as int == 121 && 'e' as int == 101 && 's' as int == 115);
        assert(r == reads_yes(w)) by {
            if len >= 1 {
                assert(w[0] == a[lo as int]);
            }
            if len == 3 {
                assert(w[1] == a[lo + 1]);
                assert(w[2] == a[lo + 2]);
            }
        }
        if r {
            assert(says_yes(a));
        } else {
            assert forall|l: int, h: int|
                {
                    &&& 0 <= l <= h <= a.len()
                    &&& forall|i: int| 0 <= i < l ==> is_white_space(#[trigger] a[i])
                    &&& forall|i: int| h <= i < a.len() ==> is_white_space(#[trigger] a[i])
                } implies !#[trigger] reads_yes(a.subrange(l, h)) by {
                let v = a.subrange(l, h);
                if reads_yes(v) {
                    // a word that reads yes holds no white space, so it is the trimmed answer
                    assert(!is_white_space(v[0]));
                    assert(!is_white_space(v.last())) by {
                        if v.len() == 3 {
                            assert(v.last() == v[2]);
                        }
                    }
                    assert(v[0] == a[l]);
                    assert(v.last() == a[h - 1]);
                    if lo < hi {
                        assert(!is_white_space(a[lo as int]));
                        assert(!is_white_space(a[hi - 1]));
                        assert(l == lo);
                        assert(h == hi);
                        assert(v =~= w);
                    } else {
                        // the answer is blank
                        assert(is_white_space(a[l]));
                    }
                }
            }
        }
    }
    r
}

/// The lines that announce a deletion: how many items there are, the first
/// five of them, and how many more there are if there are more.
pub open spec fn deletion_notice(paths: Seq<Seq<char>>) -> Seq<Seq<char>> {
    let head = seq!["About to delete "@ + decimal(paths.len()) + " item(s):"@];
    if paths.len() <= 5 {
        head + Seq::new(paths.len(), |i: int| "  "@ + paths[i])
    } else {
        head + Seq::new(5, |i: int| "  "@ + paths[i]) + seq![
            "  ... and "@ + decimal((paths.len() - 5) as nat) + " more"@,
        ]
    }
}

/// The question that follows the announcement.
pub open spec fn deletion_question() -> Seq<char> {
    "Continue? (y/N): "@
}

/// Words the announcement of a deletion.
pub fn render_deletion_notice(paths: &Vec<String>) -> (r: Vec<String>)
    ensures
        line_views(r@) == deletion_notice(string_views(paths@)),
{
    let total: usize = paths.len();
    let shown: usize = if total <= PREVIEW_LIMIT {
        total
    } else {
        PREVIEW_LIMIT
    };
    let mut lines: Vec<String> = Vec::new();
    let head = String::from_str("About to delete ").concat(
        decimal_string(total as u128).as_str(),
    ).concat(" item(s):");
    assert(head@ =~= "About to delete "@ + decimal(total as nat) + " item(s):"@);
    lines.push(head);
    let mut i: usize = 0;
    while i < shown
        invariant
            i <= shown <= total,
            total == paths.len(),
            lines@.len() == i + 1,
            lines@[0]@ == "About to delete "@ + decimal(total as nat) + " item(s):"@,
            forall|j: int| 1 <= j <= i ==> (#[trigger] lines@[j])@ == "  "@ + paths@[j - 1]@,
        decreases shown - i,
    {
        lines.push(String::from_str("  ").concat(paths[i].as_str()));
        i += 1;
    }
    if total > PREVIEW_LIMIT {
        let more = String::from_str("  ... and ").concat(
            decimal_string((total - PREVIEW_LIMIT) as u128).as_str(),
        ).concat(" more");
        assert(more@ =~= "  ... and "@ + decimal((total - 5) as nat) + " more"@);
        lines.push(more);
    }
    proof {
        let want = deletion_notice(string_views(paths@));
        assert(line_views(lines@).len() == want.len());
        assert forall|k: int| 0 <= k < want.len() implies line_views(lines@)[k] == want[k] by {
            if 1 <= k <= shown {
                assert(lines@[k]@ == "  "@ + paths@[k - 1]@);
            }
        }
        assert(line_views(lines@) =~= want);
    }
    lines
}

/// Decides whether a deletion goes ahead: a forced one does, and so does one
/// the user said yes to. Without an answer it does not.
pub fn confirm_deletion(force: bool, answer: Option<String>) -> (r: bool)
    ensures
        r == (force || (answer matches Some(a) && says_yes(a@))),
{
    if force {
        return true;
    }
    match answer {
        Some(a) => is_affirmative(a.as_str()),
        None => false,
    }
}

} // verus!
