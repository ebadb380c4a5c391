//! The bidirectional stream decorator.

use vstd::prelude::*;

use crate::gauge::{sat_add_u64, Gauge};
use crate::outcome::{read_tally, write_tally, ReadOutcome, WriteOutcome};

verus! {

/// The counter for the read direction of a [`WholeStream`].
pub struct ReadGauge(pub Gauge);

/// The counter for the write direction of a [`WholeStream`].
pub struct WriteGauge(pub Gauge);

/// Wraps a duplex stream and tallies each direction into its own [`Gauge`],
/// independently. Flush and shutdown carry no payload bytes and so have no
/// counterpart here: they pass through the decorator untouched.
pub struct WholeStream<S> {
    s: S,
    r: Gauge,
    w: Gauge,
}

impl<S> WholeStream<S> {
    /// The wrapped stream value.
    pub closed spec fn inner(&self) -> S {
        self.s
    }

    /// The bytes tallied for the read direction and not yet drained.
    pub closed spec fn counted_read(&self) -> u64 {
        self.r@
    }

    /// The bytes tallied for the write direction and not yet drained.
    pub closed spec fn counted_written(&self) -> u64 {
        self.w@
    }

    /// Wrap `s`, tallying completed reads into `r` and completed writes
    /// into `w`.
    pub fn new(s: S, r: ReadGauge, w: WriteGauge) -> (ws: Self)
        ensures
            ws.counted_read() == r.0@,
            ws.counted_written() == w.0@,
    {
        WholeStream { s, r: r.0, w: w.0 }
    }

    /// Tally the outcome of one read attempt into the read-direction
    /// counter; the write-direction counter is untouched.
    pub fn observe_read(&mut self, outcome: &ReadOutcome)
        ensures
            final(self).counted_read() as int == sat_add_u64(
                old(self).counted_read() as int,
                read_tally(*outcome),
            ),
            final(self).counted_written() == old(self).counted_written(),
            final(self).inner() == old(self).inner(),
    {
        match outcome {
            ReadOutcome::Completed { filled } => self.r.update(*filled),
            ReadOutcome::Pending => (),
            ReadOutcome::Failed => (),
        }
    }

    /// Tally the outcome of one write attempt into the write-direction
    /// counter; the read-direction counter is untouched.
    pub fn observe_write(&mut self, outcome: &WriteOutcome)
        ensures
            final(self).counted_written() as int == sat_add_u64(
                old(self).counted_written() as int,
                write_tally(*outcome),
            ),
            final(self).counted_read() == old(self).counted_read(),
            final(self).inner() == old(self).inner(),
    {
        match outcome {
            WriteOutcome::Accepted { count } => self.w.update(*count),
            WriteOutcome::Pending => (),
            WriteOutcome::Failed => (),
        }
    }

    /// Take the read-direction tally and reset it to zero.
    pub fn drain_read(&mut self) -> (n: u64)
        ensures
            n == old(self).counted_read(),
            final(self).counted_read() == 0,
            final(self).counted_written() == old(self).counted_written(),
            final(self).inner() == old(self).inner(),
    {
        self.r.drain()
    }

    /// Take the write-direction tally and reset it to zero.
    pub fn drain_written(&mut self) -> (n: u64)
        ensures
            n == old(self).counted_written(),
            final(self).counted_written() == 0,
            final(self).counted_read() == old(self).counted_read(),
            final(self).inner() == old(self).inner(),
    {
        self.w.drain()
    }
}

} // verus!
