//! The bounded wait for a staged file to become readable.
//!
//! A file that was just written may stay unavailable for a moment. The file
//! is read again after a short pause, a fixed number of times at most; when
//! the budget is spent the wait ends in a timeout and is never silently
//! skipped.

use vstd::prelude::*;

verus! {

/// The most reads that are ever attempted on one staged file.
pub const MAX_READ_ATTEMPTS: u32 = 10;

/// The pause before a read is attempted again, in milliseconds.
pub const RETRY_DELAY_MS: u64 = 100;

/// What follows one attempt to read the staged file.
#[derive(Clone, Copy, Debug, PartialEq, Eq, Structural)]
pub enum ReadVerdict {
    /// The file was read: the wait is over.
    Done,
    /// The read failed: pause for `delay_ms` milliseconds, then read again.
    Retry { delay_ms: u64 },
    /// The read failed and the budget is spent.
    TimedOut,
}

/// The verdict after `made` reads, the last of which succeeded or not.
pub open spec fn verdict(made: nat, succeeded: bool) -> ReadVerdict {
    if succeeded {
        ReadVerdict::Done
    } else if made < MAX_READ_ATTEMPTS {
        ReadVerdict::Retry { delay_ms: RETRY_DELAY_MS }
    } else {
        ReadVerdict::TimedOut
    }
}

/// Decides what follows a read, given how many reads were made so far, this
/// one included.
pub fn after_attempt(made: u32, succeeded: bool) -> (next: ReadVerdict)
    ensures
        next == verdict(made as nat, succeeded),
{
    if succeeded {
        ReadVerdict::Done
    } else if made < MAX_READ_ATTEMPTS {
        ReadVerdict::Retry { delay_ms: RETRY_DELAY_MS }
    } else {
        ReadVerdict::TimedOut
    }
}

/// The number of reads made in all when `made` were made already, all in
/// vain, and the read number `k` succeeds exactly if `reads(k)`.
pub open spec fn reads_made(reads: spec_fn(nat) -> bool, made: nat) -> nat
    decreases MAX_READ_ATTEMPTS - made,
{
    if verdict(made + 1, reads(made + 1)) is Retry {
        reads_made(reads, made + 1)
    } else {
        made + 1
    }
}

/// How the wait ends when `made` reads were made already, all in vain, and
/// the read number `k` succeeds exactly if `reads(k)`.
pub open spec fn wait_ends(reads: spec_fn(nat) -> bool, made: nat) -> ReadVerdict {
    let last = reads_made(reads, made);
    verdict(last, reads(last))
}

/// The retry bound. Whatever the reads do, at most ten are made. The wait
/// ends with the first read that succeeds, if that is one of the first ten,
/// and no read follows it; otherwise it ends in a timeout after the tenth.
pub proof fn lemma_retry_bound(reads: spec_fn(nat) -> bool)
    ensures
        1 <= reads_made(reads, 0) <= MAX_READ_ATTEMPTS,
        forall|k: nat| 1 <= k < reads_made(reads, 0) ==> !#[trigger] reads(k),
        wait_ends(reads, 0) is Done <==> reads(reads_made(reads, 0)),
        wait_ends(reads, 0) is TimedOut <==> reads_made(reads, 0) == MAX_READ_ATTEMPTS && !reads(
            MAX_READ_ATTEMPTS as nat,
        ),
        !(wait_ends(reads, 0) is Retry),
{
    lemma_reads_from(reads, 0);
}

/// The retry bound from any point of the wait on.
pub proof fn lemma_reads_from(reads: spec_fn(nat) -> bool, made: nat)
    requires
        made < MAX_READ_ATTEMPTS,
    ensures
        made < reads_made(reads, made) <= MAX_READ_ATTEMPTS,
        forall|k: nat| made < k < reads_made(reads, made) ==> !#[trigger] reads(k),
        wait_ends(reads, made) is Done <==> reads(reads_made(reads, made)),
        wait_ends(reads, made) is TimedOut <==> reads_made(reads, made) == MAX_READ_ATTEMPTS
            && !reads(MAX_READ_ATTEMPTS as nat),
        !(wait_ends(reads, made) is Retry),
    decreases MAX_READ_ATTEMPTS - made,
{
    if verdict(made + 1, reads(made + 1)) is Retry {
        lemma_reads_from(reads, made + 1);
    }
}

} // verus!
