//! Live throughput measurement for byte streams.
//!
//! A [`Gauge`] tallies bytes as stream operations complete; a [`GaugeHandle`]
//! periodically drains the tally and maintains a smoothed bytes-per-second
//! estimate (an exponential moving average) together with a cumulative total.
//! Stream decorators ([`ReadHalf`], [`WriteHalf`], [`WholeStream`]) tally the
//! outcome of each read or write attempt without altering it.

pub mod ema;
pub mod gauge;
pub mod lemmas;
pub mod outcome;
pub mod read;
pub mod whole;
pub mod write;

pub use gauge::{gauge, gauge_with_alpha, Gauge, GaugeHandle};
pub use outcome::{ReadOutcome, WriteOutcome};
pub use read::ReadHalf;
pub use whole::{ReadGauge, WholeStream, WriteGauge};
pub use write::WriteHalf;
