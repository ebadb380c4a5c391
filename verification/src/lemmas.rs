//! The laws of the counter and the sampler, stated and proved over their
//! abstract models.

use vstd::prelude::*;
use vstd::arithmetic::div_mod::lemma_div_pos_is_pos;

use crate::ema::{ema_iter, inst_rate_milli, lemma_ema_step_bounds};
use crate::gauge::{sample_active, sampled, sampler_wf, sat_add_u64, SamplerModel};

verus! {

/// The sum of a sequence of reported byte counts.
pub open spec fn seq_sum(adds: Seq<u64>) -> int
    decreases adds.len(),
{
    if adds.len() == 0 {
        0
    } else {
        seq_sum(adds.drop_last()) + adds.last()
    }
}

/// The counter value after reporting each count of `adds` in turn, starting
/// from `start` — each report a saturating addition, as in `Gauge::update`.
pub open spec fn counter_after(start: int, adds: Seq<u64>) -> int
    decreases adds.len(),
{
    if adds.len() == 0 {
        start
    } else {
        sat_add_u64(counter_after(start, adds.drop_last()), adds.last() as int)
    }
}

proof fn lemma_seq_sum_nonneg(adds: Seq<u64>)
    ensures
        seq_sum(adds) >= 0,
    decreases adds.len(),
{
    if adds.len() > 0 {
        lemma_seq_sum_nonneg(adds.drop_last());
    }
}

/// Law: after any sequence of additions the counter holds exactly their
/// sum — no byte lost, none double-counted — so long as the sum fits in the
/// counter. A drain therefore returns exactly that sum, and a second drain
/// with no intervening addition returns 0, since `Gauge::drain` leaves the
/// counter at zero.
pub proof fn lemma_adds_then_drain(start: int, adds: Seq<u64>)
    requires
        0 <= start,
        start + seq_sum(adds) <= u64::MAX,
    ensures
        counter_after(start, adds) == start + seq_sum(adds),
    decreases adds.len(),
{
    if adds.len() > 0 {
        lemma_seq_sum_nonneg(adds.drop_last());
        lemma_adds_then_drain(start, adds.drop_last());
    }
}

/// Law: a second sample at the same timestamp is a no-op. The first sample
/// records the timestamp; the second sees no elapsed time and leaves the
/// smoothed rate, the total, and the recorded timestamp all unchanged,
/// whatever amount it is handed.
pub proof fn lemma_same_timestamp_noop(m: SamplerModel, now_ms: int, d1: int, d2: int)
    ensures
        sampled(sampled(m, now_ms, d1), now_ms, d2) == sampled(m, now_ms, d1),
{
}

/// Law: the cumulative total never decreases, whatever sample is taken.
pub proof fn lemma_total_monotonic(m: SamplerModel, now_ms: int, drained: int)
    requires
        0 <= m.total <= u64::MAX,
        0 <= drained,
    ensures
        sampled(m, now_ms, drained).total >= m.total,
{
}

/// Law: each active sample leaves the smoothed rate between the previous
/// rate and that sample's instantaneous rate — the smoothed rate is a
/// convex combination of the two, so over a run it can never exceed the
/// largest instantaneous rate observed, nor drop below the smallest (with
/// the starting rate counted as a bound). An inactive sample leaves the
/// rate unchanged.
pub proof fn lemma_rate_within_bounds(m: SamplerModel, now_ms: int, drained: int)
    requires
        sampler_wf(m),
        0 <= m.rate_milli,
        0 <= drained,
    ensures
        sample_active(m, now_ms) ==> {
            let inst = inst_rate_milli(drained, now_ms - m.prev_ms->Some_0);
            vstd::math::min(inst, m.rate_milli) <= sampled(m, now_ms, drained).rate_milli
                <= vstd::math::max(inst, m.rate_milli)
        },
        !sample_active(m, now_ms) ==> sampled(m, now_ms, drained).rate_milli == m.rate_milli,
{
    if sample_active(m, now_ms) {
        let elapsed = now_ms - m.prev_ms->Some_0;
        lemma_div_pos_is_pos(drained * 1_000_000, elapsed);
        lemma_ema_step_bounds(
            m.alpha_num,
            m.alpha_den,
            inst_rate_milli(drained, elapsed),
            m.rate_milli,
        );
    }
}

/// The next sample time of a sampler that samples every `period_ms`.
pub open spec fn next_time(m: SamplerModel, period_ms: int) -> int {
    m.prev_ms->Some_0 + period_ms
}

/// The sampler state after `k` further samples, taken `period_ms` apart,
/// each draining `drained` bytes.
pub open spec fn sampled_n(m: SamplerModel, period_ms: int, drained: int, k: nat) -> SamplerModel
    decreases k,
{
    if k == 0 {
        m
    } else {
        let m1 = sampled_n(m, period_ms, drained, (k - 1) as nat);
        sampled(m1, next_time(m1, period_ms), drained)
    }
}

/// Law: fed at a constant pace — samples a fixed `period_ms` apart, each
/// draining the same `drained` bytes — the smoothed rate is exactly the
/// `k`-fold smoothing iteration toward the constant instantaneous rate of
/// `drained` bytes per period. By `lemma_ema_converges_geometrically` it
/// therefore converges to that rate, with the error shrinking geometrically
/// in the number of samples.
pub proof fn lemma_constant_feed(m: SamplerModel, period_ms: int, drained: int, k: nat)
    requires
        sampler_wf(m),
        m.prev_ms is Some,
        period_ms > 0,
    ensures
        sampled_n(m, period_ms, drained, k).rate_milli == ema_iter(
            m.alpha_num,
            m.alpha_den,
            inst_rate_milli(drained, period_ms),
            m.rate_milli,
            k,
        ),
        sampled_n(m, period_ms, drained, k).prev_ms is Some,
        sampled_n(m, period_ms, drained, k).alpha_num == m.alpha_num,
        sampled_n(m, period_ms, drained, k).alpha_den == m.alpha_den,
    decreases k,
{
    if k > 0 {
        lemma_constant_feed(m, period_ms, drained, (k - 1) as nat);
    }
}

} // verus!
