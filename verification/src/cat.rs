//! Showing the content of a remote file.
//!
//! A file larger than a limit is shown only after the user agreed, unless the
//! caller forces it. The content is then read and shown chunk by chunk.

use vstd::prelude::*;
use vstd::string::*;
use crate::constants::{DEFAULT_CHUNK_SIZE, MEBIBYTE};
use crate::error::{error_view, Error, ErrorView};
use crate::text::{decimal, decimal_string};
use crate::transfer::Transfer;

verus! {

/// What to do before showing a file.
#[derive(Debug, Clone, Copy, PartialEq, Eq, Structural)]
pub enum CatGate {
    /// Show the file.
    Show,
    /// The file is larger than the limit: ask first. Both sizes are in
    /// mebibytes.
    Confirm { file_size_mb: u64, limit_mb: u64 },
}

/// A size in mebibytes, rounded up.
pub open spec fn size_in_mb(size: u64) -> int {
    (size as int + 1048575) / 1048576
}

/// Whether a file of `size` bytes is shown without asking: no limit is set,
/// the file is within the limit, or the caller forces it.
pub open spec fn shown_without_asking(size: u64, force: bool, size_limit_mb: u64) -> bool {
    size_limit_mb == 0 || size_in_mb(size) <= size_limit_mb || force
}

/// Decides whether a file may be shown right away.
pub fn check_size(size: u64, force: bool, size_limit_mb: u64) -> (r: CatGate)
    ensures
        shown_without_asking(size, force, size_limit_mb) ==> r == CatGate::Show,
        !shown_without_asking(size, force, size_limit_mb) ==> r == (CatGate::Confirm {
            file_size_mb: size_in_mb(size) as u64,
            limit_mb: size_limit_mb,
        }),
{
    if size_limit_mb == 0 {
        return CatGate::Show;
    }
    let whole: u64 = size / MEBIBYTE;
    let file_size_mb: u64 = if size % MEBIBYTE == 0 {
        whole
    } else {
        whole + 1
    };
    if file_size_mb > size_limit_mb && !force {
        CatGate::Confirm { file_size_mb, limit_mb: size_limit_mb }
    } else {
        CatGate::Show
    }
}

/// The notice that a file is too large to be shown unasked. Where nobody can
/// be asked it says how to override; else it asks.
pub open spec fn large_file_notice(file_size_mb: u64, limit_mb: u64, interactive: bool) -> Seq<
    char,
> {
    "File too large ("@ + decimal(file_size_mb as nat) + "MB > "@ + decimal(limit_mb as nat) + (
    if interactive {
        "MB). Continue? [y/N]: "@
    } else {
        "MB). Use force to override."@
    })
}

/// Renders the notice for a file that is too large.
pub fn render_large_file_notice(file_size_mb: u64, limit_mb: u64, interactive: bool) -> (r: String)
    ensures
        r@ == large_file_notice(file_size_mb, limit_mb, interactive),
{
    let tail = if interactive {
        "MB). Continue? [y/N]: "
    } else {
        "MB). Use force to override."
    };
    let r = String::from_str("File too large (").concat(
        decimal_string(file_size_mb as u128).as_str(),
    ).concat("MB > ").concat(decimal_string(limit_mb as u128).as_str()).concat(tail);
    assert(r@ =~= large_file_notice(file_size_mb, limit_mb, interactive));
    r
}

/// The failure of `cat` when looking up the file failed: a file that is not
/// there is not found; any other failure is reported as a failed read, with
/// the backend's failure as its cause.
pub fn stat_failure(path: &str, not_found: bool, message: &str) -> (e: Error)
    ensures
        e@ == if not_found {
            ErrorView::PathNotFound { path: path@ }
        } else {
            ErrorView::CatFailed {
                path: path@,
                source: Box::new(ErrorView::OpenDal { not_found: false, message: message@ }),
            }
        },
{
    proof {
        reveal_with_fuel(error_view, 2);
    }
    if not_found {
        Error::PathNotFound { path: String::from_str(path) }
    } else {
        Error::CatFailed {
            path: String::from_str(path),
            source: Box::new(Error::OpenDal { not_found: false, message: String::from_str(message) }),
        }
    }
}

/// The transfer that reads a file of `size` bytes for display: by ranges of
/// one chunk.
pub fn display_transfer(size: u64) -> (t: Transfer)
    ensures
        t == (Transfer {
            size: Some(size),
            chunk_size: DEFAULT_CHUNK_SIZE as u64,
            transferred: 0,
            finished: false,
        }),
{
    Transfer::ranged(size, DEFAULT_CHUNK_SIZE as u64)
}

/// A forced display never asks, nor does one without a limit, and an empty
/// file is always within a limit.
pub proof fn lemma_when_shown(size: u64, force: bool, size_limit_mb: u64)
    ensures
        force ==> shown_without_asking(size, force, size_limit_mb),
        size_limit_mb == 0 ==> shown_without_asking(size, force, size_limit_mb),
        size == 0 ==> shown_without_asking(size, force, size_limit_mb),
        size as int <= size_limit_mb as int * 1048576 ==> shown_without_asking(
            size,
            force,
            size_limit_mb,
        ),
{
    if size as int <= size_limit_mb as int * 1048576 {
        assert(size_in_mb(size) <= size_limit_mb) by (nonlinear_arith)
            requires
                size as int <= size_limit_mb as int * 1048576,
                size_in_mb(size) == (size as int + 1048575) / 1048576,
        ;
    }
}

} // verus!
