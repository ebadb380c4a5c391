//! The byte counter and the throughput sampler.

use vstd::prelude::*;

use crate::ema::{ema_step, ema_step_exec, inst_rate_exec, inst_rate_milli};

verus! {

/// Saturating addition on the range of `u64`, the arithmetic of the counter.
pub open spec fn sat_add_u64(a: int, b: int) -> int {
    if a + b > u64::MAX { u64::MAX as int } else { a + b }
}

/// Accumulator of bytes transferred since the last drain.
///
/// Producers report byte counts with [`Gauge::update`]; the single consumer
/// takes the tally with [`Gauge::drain`]. The count saturates at `u64::MAX`
/// rather than wrapping, so it never decreases between drains.
pub struct Gauge {
    bytes: u64,
}

impl View for Gauge {
    type V = u64;

    closed spec fn view(&self) -> u64 {
        self.bytes
    }
}

impl Gauge {
    /// A fresh counter holding zero bytes.
    pub fn new() -> (g: Gauge)
        ensures
            g@ == 0,
    {
        Gauge { bytes: 0 }
    }

    /// Report `bytes` transferred: adds to the tally, saturating at `u64::MAX`.
    pub fn update(&mut self, bytes: u64)
        ensures
            final(self)@ as int == sat_add_u64(old(self)@ as int, bytes as int),
    {
        self.bytes = self.bytes.saturating_add(bytes);
    }

    /// Take the tally and reset it to zero, returning the prior value.
    ///
    /// A drain immediately followed by another drain, with no intervening
    /// [`Gauge::update`], returns 0.
    pub fn drain(&mut self) -> (n: u64)
        ensures
            n == old(self)@,
            final(self)@ == 0,
    {
        let n = self.bytes;
        self.bytes = 0;
        n
    }
}

/// The abstract state of a [`GaugeHandle`]: the smoothing factor, the
/// timestamp of the previous sample, the smoothed rate in milli-bytes per
/// second, and the cumulative byte total.
pub ghost struct SamplerModel {
    pub alpha_num: int,
    pub alpha_den: int,
    pub prev_ms: Option<int>,
    pub rate_milli: int,
    pub total: int,
}

/// Validity of a sampler: the smoothing factor `alpha_num / alpha_den` lies
/// in `(0, 1]`. Every constructor establishes this and every operation
/// preserves it.
pub open spec fn sampler_wf(m: SamplerModel) -> bool {
    0 < m.alpha_num <= m.alpha_den
}

/// Whether a sample taken at `now_ms` performs a numeric update: it does
/// exactly when a previous sample exists and time has strictly advanced
/// since it. The first sample, and any sample with a non-advancing
/// timestamp, only records the timestamp.
pub open spec fn sample_active(m: SamplerModel, now_ms: int) -> bool {
    match m.prev_ms {
        Some(p) => now_ms > p,
        None => false,
    }
}

/// The sampler state after one sample at `now_ms` that drained `drained`
/// bytes from the counter. When the sample is not active the drained amount
/// plays no part: nothing is drained in that case, and only the timestamp is
/// recorded.
pub open spec fn sampled(m: SamplerModel, now_ms: int, drained: int) -> SamplerModel {
    if sample_active(m, now_ms) {
        let elapsed = now_ms - m.prev_ms->Some_0;
        SamplerModel {
            alpha_num: m.alpha_num,
            alpha_den: m.alpha_den,
            prev_ms: Some(now_ms),
            rate_milli: ema_step(
                m.alpha_num,
                m.alpha_den,
                inst_rate_milli(drained, elapsed),
                m.rate_milli,
            ),
            total: sat_add_u64(m.total, drained),
        }
    } else {
        SamplerModel {
            alpha_num: m.alpha_num,
            alpha_den: m.alpha_den,
            prev_ms: Some(now_ms),
            rate_milli: m.rate_milli,
            total: m.total,
        }
    }
}

/// The state of a sampler that has made no sample yet.
pub open spec fn initial_sampler(num: int, den: int) -> SamplerModel {
    SamplerModel {
        alpha_num: num,
        alpha_den: den,
        prev_ms: None,
        rate_milli: 0,
        total: 0,
    }
}

/// Exclusive consumer of a [`Gauge`]: on each update it drains the counter,
/// folds the drained amount into a smoothed bytes-per-second estimate, and
/// adds it to a running total.
///
/// The smoothed rate is an exponential moving average with the rational
/// smoothing factor `alpha_num / alpha_den`, kept in thousandths of a byte
/// per second; timestamps are in milliseconds from any fixed origin.
pub struct GaugeHandle {
    alpha_num: u64,
    alpha_den: u64,
    prev_ms: Option<u64>,
    thruput_milli: u64,
    total_bytes: u64,
}

impl View for GaugeHandle {
    type V = SamplerModel;

    closed spec fn view(&self) -> SamplerModel {
        SamplerModel {
            alpha_num: self.alpha_num as int,
            alpha_den: self.alpha_den as int,
            prev_ms: match self.prev_ms {
                Some(p) => Some(p as int),
                None => None,
            },
            rate_milli: self.thruput_milli as int,
            total: self.total_bytes as int,
        }
    }
}

impl GaugeHandle {
    /// Drain `gauge` and fold the drained amount into the smoothed rate and
    /// the total, as one sample taken at `now_ms`.
    ///
    /// When the sample is not active (first call, or a non-advancing
    /// timestamp) the counter is left undrained and only the timestamp is
    /// recorded, so no division by a zero elapsed time can occur and no
    /// drained bytes are discarded.
    pub fn update(&mut self, gauge: &mut Gauge, now_ms: u64)
        requires
            sampler_wf(old(self)@),
        ensures
            final(self)@ == sampled(old(self)@, now_ms as int, old(gauge)@ as int),
            final(gauge)@ == (if sample_active(old(self)@, now_ms as int) {
                0u64
            } else {
                old(gauge)@
            }),
            sampler_wf(final(self)@),
            final(self)@.total >= old(self)@.total,
    {
        let will_sample: bool = match self.prev_ms {
            Some(p) => now_ms > p,
            None => false,
        };
        if !will_sample {
            self.prev_ms = Some(now_ms);
            return ;
        }
        let drained = gauge.drain();
        self.sample_with(now_ms, drained);
    }

    /// Fold an amount drained elsewhere into the smoothed rate and the
    /// total, as one sample taken at `now_ms`.
    ///
    /// This is the seam for callers that keep the pending byte count in a
    /// shared cell of their own: they drain that cell and hand the amount
    /// here. When the sample is not active the amount is ignored, so such
    /// callers should drain only when [`GaugeHandle::would_sample`] says the
    /// sample will be active.
    pub fn sample_with(&mut self, now_ms: u64, drained: u64)
        requires
            sampler_wf(old(self)@),
        ensures
            final(self)@ == sampled(old(self)@, now_ms as int, drained as int),
            sampler_wf(final(self)@),
            final(self)@.total >= old(self)@.total,
    {
        let will_sample: bool = match self.prev_ms {
            Some(p) => now_ms > p,
            None => false,
        };
        if !will_sample {
            self.prev_ms = Some(now_ms);
            return ;
        }
        let prev = match self.prev_ms {
            Some(p) => p,
            None => 0,
        };
        let elapsed = now_ms - prev;
        self.prev_ms = Some(now_ms);
        self.total_bytes = self.total_bytes.saturating_add(drained);
        let inst = inst_rate_exec(drained, elapsed);
        self.thruput_milli = ema_step_exec(self.alpha_num, self.alpha_den, inst, self.thruput_milli);
    }

    /// Whether a sample taken at `now_ms` would perform a numeric update.
    pub fn would_sample(&self, now_ms: u64) -> (b: bool)
        ensures
            b == sample_active(self@, now_ms as int),
    {
        match self.prev_ms {
            Some(p) => now_ms > p,
            None => false,
        }
    }

    /// The current smoothed rate, in thousandths of a byte per second.
    pub fn thruput(&self) -> (r: u64)
        ensures
            r as int == self@.rate_milli,
    {
        self.thruput_milli
    }

    /// The cumulative number of bytes drained over this sampler's lifetime.
    /// It never decreases.
    pub fn total_bytes(&self) -> (r: u64)
        ensures
            r as int == self@.total,
    {
        self.total_bytes
    }
}

/// Create a paired sampler and counter with the default smoothing factor
/// `2/17`, which matches a sixteen-period averaging window.
pub fn gauge() -> (pair: (GaugeHandle, Gauge))
    ensures
        pair.0@ == initial_sampler(2, 17),
        sampler_wf(pair.0@),
        pair.1@ == 0,
{
    (
        GaugeHandle {
            alpha_num: 2,
            alpha_den: 17,
            prev_ms: None,
            thruput_milli: 0,
            total_bytes: 0,
        },
        Gauge::new(),
    )
}

/// Create a paired sampler and counter with the smoothing factor
/// `num / den`, rejecting any factor outside `(0, 1]`.
pub fn gauge_with_alpha(num: u64, den: u64) -> (r: Option<(GaugeHandle, Gauge)>)
    ensures
        r is Some <==> 0 < num <= den,
        r matches Some(pair) ==> pair.0@ == initial_sampler(num as int, den as int)
            && sampler_wf(pair.0@) && pair.1@ == 0,
{
    if num == 0 || num > den {
        return None;
    }
    Some(
        (
            GaugeHandle {
                alpha_num: num,
                alpha_den: den,
                prev_ms: None,
                thruput_milli: 0,
                total_bytes: 0,
            },
            Gauge::new(),
        ),
    )
}

} // verus!
