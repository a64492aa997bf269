//! Exponential smoothing with coefficient 3/10, and percentages in hundredths
//! of a percent (`10_000` stands for 100%).

use vstd::prelude::*;

verus! {

/// 100% in the library's unit, hundredths of a percent.
pub const FULL_SCALE: u64 = 10000;

/// `used / total` in hundredths of a percent, rounded down and capped at
/// 100%; `0` when `total` is `0`.
pub open spec fn ratio_spec(used: u64, total: u64) -> u64 {
    if total == 0 {
        0
    } else if used >= total {
        FULL_SCALE
    } else {
        ((used as int * FULL_SCALE as int) / total as int) as u64
    }
}

pub fn ratio(used: u64, total: u64) -> (r: u64)
    ensures
        r == ratio_spec(used, total),
        r <= FULL_SCALE,
{
    if total == 0 {
        0
    } else if used >= total {
        FULL_SCALE
    } else {
        proof {
            assert((used as int) * (FULL_SCALE as int) <= 0xffff_ffff_ffff_ffffu64 as int * 10000)
                by (nonlinear_arith);
            assert((used as int) * (FULL_SCALE as int) < (total as int) * (FULL_SCALE as int))
                by (nonlinear_arith)
                requires
                    used < total,
            ;
            assert((used as int) * (FULL_SCALE as int) / (total as int) <= FULL_SCALE as int)
                by (nonlinear_arith)
                requires
                    used < total,
                    total > 0,
            ;
        }
        let wide: u128 = used as u128 * FULL_SCALE as u128;
        (wide / total as u128) as u64
    }
}

/// `|a - b|`.
pub open spec fn dist(a: u64, b: u64) -> nat {
    if a >= b {
        (a - b) as nat
    } else {
        (b - a) as nat
    }
}

/// The step `3/10 * (raw - previous)`, rounded up in magnitude so that the
/// smoothed value reaches `raw` exactly instead of stalling one unit short.
pub open spec fn step_of(d: nat) -> nat {
    ((3 * d + 9) / 10) as nat
}

/// `previous * 0.7 + raw * 0.3`, rounded towards `raw`.
pub open spec fn smooth_spec(previous: u64, raw: u64) -> u64 {
    if raw >= previous {
        (previous + step_of((raw - previous) as nat)) as u64
    } else {
        (previous - step_of((previous - raw) as nat)) as u64
    }
}

/// The smoothed value after `n` ticks that all read `raw`, from `start`.
pub open spec fn smooth_iter(start: u64, raw: u64, n: nat) -> u64
    decreases n,
{
    if n == 0 {
        start
    } else {
        smooth_spec(smooth_iter(start, raw, (n - 1) as nat), raw)
    }
}

/// A distance `d` after one tick: `floor(7d/10)`.
pub open spec fn decay(d: nat) -> nat {
    (7 * d / 10) as nat
}

/// A distance `d` after `n` ticks.
pub open spec fn decay_iter(d: nat, n: nat) -> nat
    decreases n,
{
    if n == 0 {
        d
    } else {
        decay(decay_iter(d, (n - 1) as nat))
    }
}

/// One smoothing step: `new = previous * (1 - 0.3) + raw * 0.3`.
pub fn smooth(previous: u64, raw: u64) -> (r: u64)
    ensures
        r == smooth_spec(previous, raw),
        dist(r, raw) == decay(dist(previous, raw)),
        (10 * r as int - 7 * previous as int - 3 * raw as int) < 10,
        (10 * r as int - 7 * previous as int - 3 * raw as int) > -10,
{
    proof {
        lemma_smooth_step(previous, raw);
    }
    if raw >= previous {
        let d: u64 = raw - previous;
        let s: u64 = ((3 * (d as u128) + 9) / 10) as u64;
        assert(s <= d);
        previous + s
    } else {
        let d: u64 = previous - raw;
        let s: u64 = ((3 * (d as u128) + 9) / 10) as u64;
        assert(s <= d);
        previous - s
    }
}

/// The smoothed value of a metric: seeded by its first raw value, then moved
/// one smoothing step per tick.
pub fn smooth_or_seed(previous: Option<u64>, raw: u64) -> (r: u64)
    ensures
        previous.is_none() ==> r == raw,
        previous.is_some() ==> r == smooth_spec(previous.unwrap(), raw),
{
    match previous {
        None => raw,
        Some(p) => smooth(p, raw),
    }
}

/// Feeding one raw value over and over moves the smoothed value towards it
/// and never past it: after `n` ticks the distance is `decay` applied `n`
/// times, which falls strictly while it is positive and is at most
/// `d * 0.7^n`.
pub proof fn lemma_constant_input_converges(start: u64, raw: u64, n: nat)
    ensures
        dist(smooth_iter(start, raw, n), raw) == decay_iter(dist(start, raw), n),
        start <= raw ==> smooth_iter(start, raw, n) <= raw,
        start >= raw ==> smooth_iter(start, raw, n) >= raw,
    decreases n,
{
    if n > 0 {
        lemma_constant_input_converges(start, raw, (n - 1) as nat);
        let p = smooth_iter(start, raw, (n - 1) as nat);
        lemma_smooth_step(p, raw);
    }
}

proof fn lemma_smooth_step(p: u64, raw: u64)
    ensures
        dist(smooth_spec(p, raw), raw) == decay(dist(p, raw)),
        p <= raw ==> smooth_spec(p, raw) <= raw,
        p >= raw ==> smooth_spec(p, raw) >= raw,
{
    let d = dist(p, raw);
    assert(d - step_of(d) == decay(d));
}

/// A positive distance strictly falls on every tick.
pub proof fn lemma_decay_falls(d: nat)
    ensures
        d > 0 ==> decay(d) < d,
        d == 0 ==> decay(d) == 0,
{
}

/// Between two percentages (at most `FULL_SCALE` apart), a constant input is
/// reached exactly, to the last hundredth of a percent, within 24 ticks.
pub proof fn lemma_percentages_settle(start: u64, raw: u64)
    requires
        start <= FULL_SCALE,
        raw <= FULL_SCALE,
    ensures
        smooth_iter(start, raw, 24) == raw,
{
    lemma_constant_input_converges(start, raw, 24);
    lemma_decay_iter_monotone(dist(start, raw), FULL_SCALE as nat, 24);
    assert(decay_iter(10000, 0) == 10000);
    assert(decay_iter(10000, 1) == 7000);
    assert(decay_iter(10000, 2) == 4900);
    assert(decay_iter(10000, 3) == 3430);
    assert(decay_iter(10000, 4) == 2401);
    assert(decay_iter(10000, 5) == 1680);
    assert(decay_iter(10000, 6) == 1176);
    assert(decay_iter(10000, 7) == 823);
    assert(decay_iter(10000, 8) == 576);
    assert(decay_iter(10000, 9) == 403);
    assert(decay_iter(10000, 10) == 282);
    assert(decay_iter(10000, 11) == 197);
    assert(decay_iter(10000, 12) == 137);
    assert(decay_iter(10000, 13) == 95);
    assert(decay_iter(10000, 14) == 66);
    assert(decay_iter(10000, 15) == 46);
    assert(decay_iter(10000, 16) == 32);
    assert(decay_iter(10000, 17) == 22);
    assert(decay_iter(10000, 18) == 15);
    assert(decay_iter(10000, 19) == 10);
    assert(decay_iter(10000, 20) == 7);
    assert(decay_iter(10000, 21) == 4);
    assert(decay_iter(10000, 22) == 2);
    assert(decay_iter(10000, 23) == 1);
    assert(decay_iter(10000, 24) == 0);
}

proof fn lemma_decay_iter_monotone(a: nat, b: nat, n: nat)
    requires
        a <= b,
    ensures
        decay_iter(a, n) <= decay_iter(b, n),
    decreases n,
{
    if n > 0 {
        lemma_decay_iter_monotone(a, b, (n - 1) as nat);
        let x = decay_iter(a, (n - 1) as nat);
        let y = decay_iter(b, (n - 1) as nat);
        assert(7 * x / 10 <= 7 * y / 10) by (nonlinear_arith)
            requires
                x <= y,
        ;
    }
}

} // verus!
