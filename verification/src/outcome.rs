//! Outcomes of one non-blocking stream operation.
//!
//! A read or write attempt on a non-blocking stream ends in one of three
//! ways: it completes with a definite byte count, it would suspend, or it
//! fails. Only a completion carries bytes to tally; the other two outcomes
//! must leave every counter untouched.

use vstd::prelude::*;

verus! {

/// Outcome of one read attempt. A completion carries the number of bytes
/// placed into the caller's buffer; zero signals end of stream and is still
/// a completion.
pub enum ReadOutcome {
    /// The read completed and put `filled` bytes into the caller's buffer.
    Completed { filled: u64 },
    /// The read would suspend; nothing was transferred.
    Pending,
    /// The read failed; nothing counts as transferred.
    Failed,
}

/// Outcome of one write attempt. A completion carries the number of bytes
/// the stream accepted, which may be fewer than were offered.
pub enum WriteOutcome {
    /// The write completed and the stream accepted `count` bytes.
    Accepted { count: u64 },
    /// The write would suspend; nothing was transferred.
    Pending,
    /// The write failed; nothing counts as transferred.
    Failed,
}

/// The number of bytes a read outcome contributes to a counter: the filled
/// count on completion, nothing otherwise.
pub open spec fn read_tally(o: ReadOutcome) -> int {
    match o {
        ReadOutcome::Completed { filled } => filled as int,
        ReadOutcome::Pending => 0,
        ReadOutcome::Failed => 0,
    }
}

/// The number of bytes a write outcome contributes to a counter: the
/// accepted count on completion — never the count that was offered —
/// nothing otherwise.
pub open spec fn write_tally(o: WriteOutcome) -> int {
    match o {
        WriteOutcome::Accepted { count } => count as int,
        WriteOutcome::Pending => 0,
        WriteOutcome::Failed => 0,
    }
}

} // verus!
