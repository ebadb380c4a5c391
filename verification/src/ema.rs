//! Exact integer arithmetic for the exponential moving average.
//!
//! Rates are kept in thousandths of a byte per second ("milli-bytes per
//! second"), and the smoothing factor is the rational `num / den` with
//! `0 < num <= den`. Every operation is defined exactly over the integers,
//! with divisions rounding down.

use vstd::prelude::*;
use vstd::arithmetic::div_mod::{
    lemma_div_is_ordered, lemma_div_multiples_vanish, lemma_fundamental_div_mod, lemma_mod_bound,
};
use vstd::arithmetic::mul::lemma_mul_inequality;
use vstd::arithmetic::power::{lemma_pow1, lemma_pow_positive, pow};

verus! {

/// One smoothing step: the convex combination
/// `(num/den) * inst + (1 - num/den) * prev`, with the division rounding down.
pub open spec fn ema_step(num: int, den: int, inst: int, prev: int) -> int {
    (num * inst + (den - num) * prev) / den
}

/// Instantaneous rate in milli-bytes per second: `drained` bytes over
/// `elapsed_ms` milliseconds, capped at `u64::MAX`.
pub open spec fn inst_rate_milli(drained: int, elapsed_ms: int) -> int {
    vstd::math::min(drained * 1_000_000 / elapsed_ms, u64::MAX as int)
}

/// A smoothing step never leaves the interval spanned by the newest sample
/// and the previous value: the smoothed rate is a convex combination of the
/// two, so it cannot overshoot either bound.
pub proof fn lemma_ema_step_bounds(num: int, den: int, inst: int, prev: int)
    requires
        0 < num <= den,
        0 <= inst,
        0 <= prev,
    ensures
        vstd::math::min(inst, prev) <= ema_step(num, den, inst, prev),
        ema_step(num, den, inst, prev) <= vstd::math::max(inst, prev),
{
    let s = num * inst + (den - num) * prev;
    let lo = vstd::math::min(inst, prev);
    let hi = vstd::math::max(inst, prev);
    assert(den * lo <= num * inst + (den - num) * prev && num * inst + (den - num) * prev <= den
        * hi) by (nonlinear_arith)
        requires
            0 < num <= den,
            lo <= inst <= hi,
            lo <= prev <= hi,
    ;
    lemma_div_is_ordered(den * lo, s, den);
    lemma_div_multiples_vanish(lo, den);
    lemma_div_is_ordered(s, den * hi, den);
    lemma_div_multiples_vanish(hi, den);
}

/// When the newest sample lies at or above the previous value, one step moves
/// the value toward the sample and shrinks the gap by the factor
/// `(den - num) / den`, up to one unit of rounding.
pub proof fn lemma_ema_step_gap_below(num: int, den: int, inst: int, prev: int)
    requires
        0 < num <= den,
        0 <= prev <= inst,
    ensures
        prev <= ema_step(num, den, inst, prev) <= inst,
        den * (inst - ema_step(num, den, inst, prev)) <= (den - num) * (inst - prev) + (den - 1),
{
    let s = num * inst + (den - num) * prev;
    let q = s / den;
    lemma_ema_step_bounds(num, den, inst, prev);
    lemma_fundamental_div_mod(s, den);
    lemma_mod_bound(s, den);
    assert(den * inst - (num * inst + (den - num) * prev) == (den - num) * (inst - prev))
        by (nonlinear_arith);
    assert(den * (inst - q) == den * inst - den * q) by (nonlinear_arith);
}

/// When the newest sample lies at or below the previous value, one step moves
/// the value toward the sample and shrinks the gap by at least the factor
/// `(den - num) / den`.
pub proof fn lemma_ema_step_gap_above(num: int, den: int, inst: int, prev: int)
    requires
        0 < num <= den,
        0 <= inst <= prev,
    ensures
        inst <= ema_step(num, den, inst, prev) <= prev,
        den * (ema_step(num, den, inst, prev) - inst) <= (den - num) * (prev - inst),
{
    let s = num * inst + (den - num) * prev;
    let q = s / den;
    lemma_ema_step_bounds(num, den, inst, prev);
    lemma_fundamental_div_mod(s, den);
    lemma_mod_bound(s, den);
    assert(num * inst + (den - num) * prev - den * inst == (den - num) * (prev - inst))
        by (nonlinear_arith);
    assert(den * (q - inst) == den * q - den * inst) by (nonlinear_arith);
}

/// One smoothing step shrinks the distance to the newest sample by the factor
/// `(den - num) / den`, up to one unit of rounding: scaled by `den`, the new
/// error is at most the old error scaled by `den - num`, plus `den - 1`.
pub proof fn lemma_ema_step_error(num: int, den: int, inst: int, prev: int)
    requires
        0 < num <= den,
        0 <= inst,
        0 <= prev,
    ensures
        0 <= ema_step(num, den, inst, prev),
        den * vstd::math::abs(inst - ema_step(num, den, inst, prev)) <= (den - num)
            * vstd::math::abs(inst - prev) + (den - 1),
{
    if prev <= inst {
        lemma_ema_step_gap_below(num, den, inst, prev);
    } else {
        lemma_ema_step_gap_above(num, den, inst, prev);
    }
}

/// The value after `k` successive smoothing steps that each see the same
/// instantaneous rate `inst`, starting from `start`.
pub open spec fn ema_iter(num: int, den: int, inst: int, start: int, k: nat) -> int
    decreases k,
{
    if k == 0 {
        start
    } else {
        ema_step(num, den, inst, ema_iter(num, den, inst, start, (k - 1) as nat))
    }
}

/// Fed a constant instantaneous rate, the smoothed value converges to it,
/// and the error shrinks geometrically with the number of steps.
///
/// Scaled by `num * den^k`, the error after `k` steps is bounded by the
/// initial error scaled by `num * (den - num)^k` — a factor that decays
/// geometrically, since `den - num < den` — plus `den^(k+1)`, the rounding
/// residue, which divided back out caps the eventual error at `den / num`
/// milli-units.
pub proof fn lemma_ema_converges_geometrically(num: int, den: int, inst: int, start: int, k: nat)
    requires
        0 < num <= den,
        0 <= inst,
        0 <= start,
    ensures
        0 <= ema_iter(num, den, inst, start, k),
        num * (pow(den, k) * vstd::math::abs(inst - ema_iter(num, den, inst, start, k))) <= num * (
        pow(den - num, k) * vstd::math::abs(inst - start)) + pow(den, (k + 1) as nat),
    decreases k,
{
    reveal(pow);
    let e0 = vstd::math::abs(inst - start);
    if k == 0 {
        lemma_pow1(den);
        assert(pow(den, 0) == 1);
        assert(pow(den - num, 0) == 1);
        assert(pow(den, (0 + 1) as nat) == den);
    } else {
        let j = (k - 1) as nat;
        let prev = ema_iter(num, den, inst, start, j);
        let cur = ema_iter(num, den, inst, start, k);
        let ep = vstd::math::abs(inst - prev) as int;
        let ec = vstd::math::abs(inst - cur) as int;
        let pd_j = pow(den, j);
        let pd_k = pow(den, k);
        let pm_j = pow(den - num, j);
        let pm_k = pow(den - num, k);
        lemma_ema_converges_geometrically(num, den, inst, start, j);
        lemma_ema_step_error(num, den, inst, prev);
        lemma_pow_positive(den, j);
        lemma_pow_positive(den, k);
        // Unfold one step of each power.
        assert(pd_k == den * pd_j);
        assert(pm_k == (den - num) * pm_j);
        assert(pow(den, (k + 1) as nat) == den * pd_k);
        assert(pow(den, (j + 1) as nat) == pd_k);
        // The one-step contraction, scaled by num * den^j.
        assert(den * ec <= (den - num) * ep + den);
        assert(num * (pd_k * ec) == (num * pd_j) * (den * ec)) by (nonlinear_arith)
            requires
                pd_k == den * pd_j,
        ;
        assert(num * pd_j >= 0) by (nonlinear_arith)
            requires
                num > 0,
                pd_j > 0,
        ;
        lemma_mul_inequality(den * ec, (den - num) * ep + den, num * pd_j);
        assert((den * ec) * (num * pd_j) == num * (pd_k * ec)) by (nonlinear_arith)
            requires
                pd_k == den * pd_j,
        ;
        assert(((den - num) * ep + den) * (num * pd_j) == (den - num) * (num * (pd_j * ep)) + den
            * (num * pd_j)) by (nonlinear_arith);
        // The recursive bound, scaled by den - num.
        lemma_mul_inequality(
            num * (pd_j * ep),
            num * (pm_j * e0) + pd_k,
            den - num,
        );
        assert((num * (pm_j * e0) + pd_k) * (den - num) == num * (pm_k * e0) + (den - num) * pd_k)
            by (nonlinear_arith)
            requires
                pm_k == (den - num) * pm_j,
        ;
        assert((num * (pd_j * ep)) * (den - num) == (den - num) * (num * (pd_j * ep)))
            by (nonlinear_arith);
        // The rounding residue folds into den^(k+1).
        assert(den * (num * pd_j) + (den - num) * pd_k == den * pd_k) by (nonlinear_arith)
            requires
                pd_k == den * pd_j,
        ;
    }
}

/// Exact executable form of [`ema_step`], computed in 128-bit intermediates.
pub(crate) fn ema_step_exec(num: u64, den: u64, inst: u64, prev: u64) -> (r: u64)
    requires
        0 < num <= den,
    ensures
        r as int == ema_step(num as int, den as int, inst as int, prev as int),
{
    proof {
        lemma_ema_step_bounds(num as int, den as int, inst as int, prev as int);
        assert(num * inst + (den - num) * prev <= den * vstd::math::max(
            inst as int,
            prev as int,
        )) by (nonlinear_arith)
            requires
                0 < num <= den,
                0 <= inst,
                0 <= prev,
        ;
        assert(den * vstd::math::max(inst as int, prev as int) <= u64::MAX * u64::MAX)
            by (nonlinear_arith)
            requires
                0 <= den <= u64::MAX,
                0 <= vstd::math::max(inst as int, prev as int) <= u64::MAX,
        ;
    }
    let s: u128 = (num as u128) * (inst as u128) + ((den - num) as u128) * (prev as u128);
    let q: u128 = s / (den as u128);
    proof {
        lemma_div_is_ordered(
            s as int,
            den * vstd::math::max(inst as int, prev as int),
            den as int,
        );
        lemma_div_multiples_vanish(vstd::math::max(inst as int, prev as int), den as int);
    }
    q as u64
}

/// Exact executable form of [`inst_rate_milli`], computed in 128-bit
/// intermediates and capped at `u64::MAX`.
pub(crate) fn inst_rate_exec(drained: u64, elapsed_ms: u64) -> (r: u64)
    requires
        elapsed_ms > 0,
    ensures
        r as int == inst_rate_milli(drained as int, elapsed_ms as int),
{
    let wide: u128 = (drained as u128) * 1_000_000;
    let q: u128 = wide / (elapsed_ms as u128);
    if q > (u64::MAX as u128) {
        u64::MAX
    } else {
        q as u64
    }
}

} // verus!
