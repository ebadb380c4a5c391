//! The read-side stream decorator.

use vstd::prelude::*;

use crate::gauge::{sat_add_u64, Gauge};
use crate::outcome::{read_tally, ReadOutcome};

verus! {

/// Wraps the read side of a stream and tallies every completed read into a
/// [`Gauge`]. The decorator never touches the stream itself: the caller
/// performs the read and reports its outcome with
/// [`ReadHalf::observe_read`].
pub struct ReadHalf<R> {
    r: R,
    gauge: Gauge,
}

impl<R> ReadHalf<R> {
    /// The wrapped stream value.
    pub closed spec fn inner(&self) -> R {
        self.r
    }

    /// The bytes tallied and not yet drained.
    pub closed spec fn counted(&self) -> u64 {
        self.gauge@
    }

    /// Wrap `r`, tallying completed reads into `gauge`.
    pub fn new(r: R, gauge: Gauge) -> (half: Self)
        ensures
            half.counted() == gauge@,
    {
        ReadHalf { r, gauge }
    }

    /// Tally the outcome of one read attempt: a completion adds its filled
    /// count — zero at end of stream — and a pending or failed attempt adds
    /// nothing.
    pub fn observe_read(&mut self, outcome: &ReadOutcome)
        ensures
            final(self).counted() as int == sat_add_u64(
                old(self).counted() as int,
                read_tally(*outcome),
            ),
            final(self).inner() == old(self).inner(),
    {
        match outcome {
            ReadOutcome::Completed { filled } => self.gauge.update(*filled),
            ReadOutcome::Pending => (),
            ReadOutcome::Failed => (),
        }
    }

    /// Take the tallied bytes and reset the tally to zero.
    pub fn drain(&mut self) -> (n: u64)
        ensures
            n == old(self).counted(),
            final(self).counted() == 0,
            final(self).inner() == old(self).inner(),
    {
        self.gauge.drain()
    }
}

} // verus!
