//! The transfer of one object in chunks.
//!
//! A transfer reads a chunk, writes it, and repeats. It holds one chunk at a
//! time, so its memory use is bounded by the chunk size, whatever the size of
//! the object. A read that returns nothing ends it. The destination must then
//! be closed: only a closed destination makes the transfer durable.
//!
//! The caller performs the reads and writes. This module decides which range
//! to read next and when to close, and keeps count of the bytes moved.

use vstd::prelude::*;

verus! {

/// The next thing to do in a transfer.
#[derive(Debug, Clone, Copy, PartialEq, Eq, Structural)]
pub enum TransferStep {
    /// Read up to `len` bytes starting at `offset`, write them to the
    /// destination, and report how many there were.
    Read { offset: u64, len: u64 },
    /// Close the destination. The transfer is over.
    Close,
}

/// The state of one transfer.
#[derive(Debug, Clone, Copy, PartialEq, Eq, Structural)]
pub struct Transfer {
    /// The size of the source if it is known beforehand. A transfer of known
    /// size reads by range and stops at the size; one of unknown size reads
    /// on until a read returns nothing.
    pub size: Option<u64>,
    /// The most bytes to read at once.
    pub chunk_size: u64,
    /// The bytes moved so far, which is also where the next read starts.
    pub transferred: u64,
    /// Whether a read has returned nothing.
    pub finished: bool,
}

/// The smaller of two numbers.
pub open spec fn min_of(a: int, b: int) -> int {
    if a <= b {
        a
    } else {
        b
    }
}

/// The step a transfer in state `t` takes next.
pub open spec fn step_of(t: Transfer) -> TransferStep {
    if t.finished {
        TransferStep::Close
    } else {
        match t.size {
            Some(size) => if t.transferred >= size {
                TransferStep::Close
            } else {
                TransferStep::Read {
                    offset: t.transferred,
                    len: min_of(t.chunk_size as int, size - t.transferred) as u64,
                }
            },
            None => TransferStep::Read { offset: t.transferred, len: t.chunk_size },
        }
    }
}

/// The state after a read that returned `data_len` bytes. An empty read
/// finishes the transfer. The count of bytes stops at the largest number it
/// can hold.
pub open spec fn after_read(t: Transfer, data_len: u64) -> Transfer {
    if data_len == 0 {
        Transfer { finished: true, ..t }
    } else {
        Transfer { transferred: min_of(t.transferred + data_len, u64::MAX as int) as u64, ..t }
    }
}

/// The state after `n` reads that each returned all the bytes asked for.
pub open spec fn after_full_reads(t: Transfer, n: nat) -> Transfer
    decreases n,
{
    if n == 0 {
        t
    } else {
        match step_of(t) {
            TransferStep::Read { len, .. } => after_full_reads(after_read(t, len), (n - 1) as nat),
            TransferStep::Close => t,
        }
    }
}

impl Transfer {
    /// A transfer of an object whose size is known: it is read by ranges of
    /// at most `chunk_size` bytes.
    pub fn ranged(size: u64, chunk_size: u64) -> (t: Transfer)
        ensures
            t == (Transfer { size: Some(size), chunk_size, transferred: 0, finished: false }),
    {
        Transfer { size: Some(size), chunk_size, transferred: 0, finished: false }
    }

    /// A transfer of a source that is read from start to end, `chunk_size`
    /// bytes at a time, until it is exhausted.
    pub fn sequential(chunk_size: u64) -> (t: Transfer)
        ensures
            t == (Transfer { size: None, chunk_size, transferred: 0, finished: false }),
    {
        Transfer { size: None, chunk_size, transferred: 0, finished: false }
    }

    /// What to do next. A read never asks for more than one chunk, and never
    /// for bytes beyond a known size.
    pub fn next_step(&self) -> (r: TransferStep)
        ensures
            r == step_of(*self),
            r matches TransferStep::Read { offset, len } ==> len <= self.chunk_size && offset
                == self.transferred,
    {
        if self.finished {
            return TransferStep::Close;
        }
        match self.size {
            Some(size) => {
                if self.transferred >= size {
                    TransferStep::Close
                } else {
                    let remaining: u64 = size - self.transferred;
                    let len: u64 = if self.chunk_size <= remaining {
                        self.chunk_size
                    } else {
                        remaining
                    };
                    TransferStep::Read { offset: self.transferred, len }
                }
            },
            None => TransferStep::Read { offset: self.transferred, len: self.chunk_size },
        }
    }

    /// Takes note of a read that returned `data_len` bytes, all of which were
    /// written.
    pub fn record_read(&mut self, data_len: u64)
        ensures
            *final(self) == after_read(*old(self), data_len),
    {
        if data_len == 0 {
            self.finished = true;
        } else if data_len <= u64::MAX - self.transferred {
            self.transferred = self.transferred + data_len;
        } else {
            self.transferred = u64::MAX;
        }
    }

    /// Whether the transfer has nothing left to read.
    pub fn is_complete(&self) -> (r: bool)
        ensures
            r == (step_of(*self) is Close),
    {
        match self.next_step() {
            TransferStep::Close => true,
            TransferStep::Read { .. } => false,
        }
    }
}

/// The number of chunks an object of a given size takes.
pub open spec fn chunks_needed(size: nat, chunk_size: nat) -> nat
    recommends
        chunk_size > 0,
{
    ((size + chunk_size - 1) / chunk_size as int) as nat
}

/// A read that returns something moves the transfer forward, and nothing
/// else changes its position.
pub proof fn lemma_read_advances(t: Transfer, data_len: u64)
    ensures
        data_len > 0 && t.transferred < u64::MAX ==> after_read(t, data_len).transferred
            > t.transferred,
        data_len == 0 ==> after_read(t, data_len).transferred == t.transferred && step_of(
            after_read(t, data_len),
        ) is Close,
        after_read(t, data_len).size == t.size,
        after_read(t, data_len).chunk_size == t.chunk_size,
{
}

/// If every read returns what was asked for, a transfer of known size moves
/// exactly that many bytes and then closes, within as many reads as the size
/// has chunks.
pub proof fn lemma_full_reads_complete(t: Transfer, n: nat)
    requires
        t.size is Some,
        !t.finished,
        t.chunk_size > 0,
        t.transferred <= t.size->Some_0,
        n * t.chunk_size >= t.size->Some_0 - t.transferred,
    ensures
        after_full_reads(t, n).transferred == t.size->Some_0,
        step_of(after_full_reads(t, n)) is Close,
        !after_full_reads(t, n).finished,
    decreases n,
{
    let size = t.size->Some_0;
    if t.transferred >= size {
        if n > 0 {
            assert(step_of(t) is Close);
        }
    } else {
        assert(n > 0) by {
            if n == 0 {
                assert(n * t.chunk_size == 0) by (nonlinear_arith)
                    requires
                        n == 0,
                ;
            }
        }
        let remaining = size - t.transferred;
        let len = min_of(t.chunk_size as int, remaining);
        let next = after_read(t, len as u64);
        assert(next.transferred == t.transferred + len);
        assert((n - 1) * t.chunk_size == n * t.chunk_size - t.chunk_size) by (nonlinear_arith);
        lemma_full_reads_complete(next, (n - 1) as nat);
    }
}

/// The number of chunks of the size is enough reads to complete a transfer
/// from the start.
pub proof fn lemma_chunks_needed_suffice(size: u64, chunk_size: u64)
    requires
        chunk_size > 0,
    ensures
        chunks_needed(size as nat, chunk_size as nat) * chunk_size >= size,
        after_full_reads(
            Transfer { size: Some(size), chunk_size, transferred: 0, finished: false },
            chunks_needed(size as nat, chunk_size as nat),
        ).transferred == size,
{
    let n = chunks_needed(size as nat, chunk_size as nat);
    assert(n * chunk_size >= size) by (nonlinear_arith)
        requires
            chunk_size > 0,
            n == (size + chunk_size - 1) / (chunk_size as int),
    ;
    lemma_full_reads_complete(
        Transfer { size: Some(size), chunk_size, transferred: 0, finished: false },
        n,
    );
}

} // verus!
