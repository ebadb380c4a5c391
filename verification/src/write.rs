//! The write-side stream decorator.

use vstd::prelude::*;

use crate::gauge::{sat_add_u64, Gauge};
use crate::outcome::{write_tally, WriteOutcome};

verus! {

/// Wraps the write side of a stream and tallies every completed write into
/// a [`Gauge`]. The decorator never touches the stream itself: the caller
/// performs the write and reports its outcome with
/// [`WriteHalf::observe_write`].
pub struct WriteHalf<W> {
    w: W,
    gauge: Gauge,
}

impl<W> WriteHalf<W> {
    /// The wrapped stream value.
    pub closed spec fn inner(&self) -> W {
        self.w
    }

    /// The bytes tallied and not yet drained.
    pub closed spec fn counted(&self) -> u64 {
        self.gauge@
    }

    /// Wrap `w`, tallying completed writes into `gauge`.
    pub fn new(w: W, gauge: Gauge) -> (half: Self)
        ensures
            half.counted() == gauge@,
    {
        WriteHalf { w, gauge }
    }

    /// Tally the outcome of one write attempt: a completion adds exactly the
    /// count the stream accepted — which may be fewer bytes than were
    /// offered — and a pending or failed attempt adds nothing.
    pub fn observe_write(&mut self, outcome: &WriteOutcome)
        ensures
            final(self).counted() as int == sat_add_u64(
                old(self).counted() as int,
                write_tally(*outcome),
            ),
            final(self).inner() == old(self).inner(),
    {
        match outcome {
            WriteOutcome::Accepted { count } => self.gauge.update(*count),
            WriteOutcome::Pending => (),
            WriteOutcome::Failed => (),
        }
    }

    /// Take the tallied bytes and reset the tally to zero.
    pub fn drain(&mut self) -> (n: u64)
        ensures
            n == old(self).counted(),
            final(self).counted() == 0,
            final(self).inner() == old(self).inner(),
    {
        self.gauge.drain()
    }
}

} // verus!
