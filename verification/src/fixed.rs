//! Fixed-point arithmetic for animation state.
//!
//! Continuous quantities (scale factors, pixel offsets, blend factors) are
//! held as signed integers counting millionths, and time as unsigned
//! microseconds. A rate of `r` per second then moves a value by
//! `gap * delta_micros * r / 1_000_000` in one frame. Quotients are cut
//! toward zero, so a step never carries a value further than the exact
//! quotient would, and results that leave the 64-bit range stop at its ends.

use vstd::prelude::*;

verus! {

/// The fixed-point representation of `1.0`.
pub const MICRO: i64 = 1_000_000;

/// `v / d` with the fraction cut off, for a positive `d`.
pub open spec fn toward_zero(v: int, d: int) -> int {
    if v >= 0 {
        v / d
    } else {
        -((-v) / d)
    }
}

/// `v` held to the range of `i64`.
pub open spec fn saturated(v: int) -> i64 {
    if v < i64::MIN {
        i64::MIN
    } else if v > i64::MAX {
        i64::MAX
    } else {
        v as i64
    }
}

/// `v` held to the range of `i32`.
pub open spec fn saturated_i32(v: int) -> i32 {
    if v < i32::MIN {
        i32::MIN
    } else if v > i32::MAX {
        i32::MAX
    } else {
        v as i32
    }
}

/// One step of exponential smoothing: `current` moves toward `target` by
/// the fraction `delta_micros * rate / 1_000_000` of the gap between them.
pub open spec fn eased(current: int, target: int, delta_micros: int, rate: int) -> int {
    current + toward_zero((target - current) * (delta_micros * rate), MICRO as int)
}

/// The whole number of pixels in a length given in millionths of a pixel.
pub open spec fn whole_pixels(micro_pixels: int) -> i32 {
    saturated_i32(toward_zero(micro_pixels, MICRO as int))
}

/// Holds a wide value to the range of `i64`.
pub fn saturate(v: i128) -> (r: i64)
    ensures
        r == saturated(v as int),
{
    if v < i64::MIN as i128 {
        i64::MIN
    } else if v > i64::MAX as i128 {
        i64::MAX
    } else {
        v as i64
    }
}

/// Holds a wide value to the range of `i32`.
pub fn saturate_i32(v: i128) -> (r: i32)
    ensures
        r == saturated_i32(v as int),
{
    if v < i32::MIN as i128 {
        i32::MIN
    } else if v > i32::MAX as i128 {
        i32::MAX
    } else {
        v as i32
    }
}

/// Moves `current` toward `target` for a frame that lasted `delta_micros`,
/// at `rate` per second.
pub fn ease(current: i64, target: i64, delta_micros: u32, rate: u8) -> (next: i64)
    ensures
        next == saturated(eased(current as int, target as int, delta_micros as int, rate as int)),
{
    assert(delta_micros * rate <= 0xffff_ffff * 0xff) by (nonlinear_arith)
        requires
            0 <= delta_micros <= 0xffff_ffff,
            0 <= rate <= 0xff,
    ;
    let gain: u128 = delta_micros as u128 * rate as u128;
    if target >= current {
        let gap: u128 = (target as i128 - current as i128) as u128;
        assert(gap * gain <= 0x1_0000_0000_0000_0000 * 0x100_0000_0000) by (nonlinear_arith)
            requires
                gap <= 0x1_0000_0000_0000_0000,
                gain <= 0x100_0000_0000,
        ;
        let step: u128 = gap * gain / 1_000_000;
        assert((target - current) * (delta_micros * rate) == gap * gain);
        saturate(current as i128 + step as i128)
    } else {
        let gap: u128 = (current as i128 - target as i128) as u128;
        assert(gap * gain <= 0x1_0000_0000_0000_0000 * 0x100_0000_0000) by (nonlinear_arith)
            requires
                gap <= 0x1_0000_0000_0000_0000,
                gain <= 0x100_0000_0000,
        ;
        let step: u128 = gap * gain / 1_000_000;
        assert(-((target - current) * (delta_micros * rate)) == gap * gain) by (nonlinear_arith)
            requires
                gap == current - target,
                gain == delta_micros * rate,
        ;
        assert((target - current) * (delta_micros * rate) <= 0) by (nonlinear_arith)
            requires
                target < current,
                delta_micros >= 0,
                rate >= 0,
        ;
        saturate(current as i128 - step as i128)
    }
}

/// `v / d` with the fraction cut off.
pub(crate) fn quotient(v: i128, d: i128) -> (q: i128)
    requires
        d > 0,
        v > i128::MIN,
    ensures
        q == toward_zero(v as int, d as int),
{
    if v >= 0 {
        v / d
    } else {
        -((-v) / d)
    }
}

/// `length * factor`, for a factor that is the sum or difference of two
/// 64-bit values.
pub(crate) fn product(length: i32, factor: i128) -> (p: i128)
    requires
        -0x1_0000_0000_0000_0000 <= factor <= 0x1_0000_0000_0000_0000,
    ensures
        p == length * factor,
        -0x8000_0000 * 0x1_0000_0000_0000_0000 <= p <= 0x8000_0000 * 0x1_0000_0000_0000_0000,
{
    assert(-0x8000_0000 * 0x1_0000_0000_0000_0000 <= length * factor <= 0x8000_0000
        * 0x1_0000_0000_0000_0000) by (nonlinear_arith)
        requires
            -0x8000_0000 <= length <= 0x8000_0000,
            -0x1_0000_0000_0000_0000 <= factor <= 0x1_0000_0000_0000_0000,
    ;
    length as i128 * factor
}

/// Cuts a length in millionths of a pixel down to whole pixels.
pub fn to_pixels(micro_pixels: i64) -> (p: i32)
    ensures
        p == whole_pixels(micro_pixels as int),
{
    saturate_i32(quotient(micro_pixels as i128, 1_000_000))
}

/// Whether `v` lies between `a` and `b`, ends included, whichever of the
/// two is the larger.
pub open spec fn between(v: int, a: int, b: int) -> bool {
    (a <= v <= b) || (b <= v <= a)
}

/// A step whose fraction `delta_micros * rate / 1_000_000` is at most one
/// never overshoots: the new value lies between the old one and the target.
/// With a larger fraction the step is longer than the gap.
pub proof fn eased_stays_between(current: int, target: int, delta_micros: int, rate: int)
    requires
        0 <= delta_micros,
        0 <= rate,
        delta_micros * rate <= MICRO,
    ensures
        between(eased(current, target, delta_micros, rate), current, target),
{
    let gain = delta_micros * rate;
    assert(0 <= gain) by (nonlinear_arith)
        requires
            gain == delta_micros * rate,
            0 <= delta_micros,
            0 <= rate,
    ;
    if target >= current {
        let gap = target - current;
        assert(0 <= (gap * gain) / (MICRO as int) <= gap) by (nonlinear_arith)
            requires
                0 <= gap,
                0 <= gain <= MICRO,
                MICRO == 1_000_000,
        ;
    } else {
        let gap = current - target;
        assert((target - current) * gain == -(gap * gain)) by (nonlinear_arith)
            requires
                gap == current - target,
        ;
        assert(0 <= gap * gain) by (nonlinear_arith)
            requires
                0 <= gap,
                0 <= gain,
        ;
        assert(0 <= (gap * gain) / (MICRO as int) <= gap) by (nonlinear_arith)
            requires
                0 <= gap,
                0 <= gain <= MICRO,
                MICRO == 1_000_000,
        ;
    }
}

/// A value that has reached its target stays there.
pub proof fn eased_rests_at_target(target: int, delta_micros: int, rate: int)
    ensures
        eased(target, target, delta_micros, rate) == target,
{
    assert((target - target) * (delta_micros * rate) == 0) by (nonlinear_arith);
}

/// Whether `current` is far enough from `target` for a step to show: the
/// gap times the fraction `delta_micros * rate / 1_000_000` amounts to at
/// least one millionth.
pub open spec fn far_from(current: int, target: int, delta_micros: int, rate: int) -> bool {
    ||| (target - current) * (delta_micros * rate) >= MICRO
    ||| (current - target) * (delta_micros * rate) >= MICRO
}

/// A step closes in on the target by at least one millionth as long as the
/// value is far from it.
pub proof fn eased_makes_progress(current: int, target: int, delta_micros: int, rate: int)
    requires
        0 <= delta_micros,
        0 <= rate,
        far_from(current, target, delta_micros, rate),
    ensures
        eased(current, target, delta_micros, rate) != current,
        current < target ==> eased(current, target, delta_micros, rate) > current,
        current > target ==> eased(current, target, delta_micros, rate) < current,
{
    let gain = delta_micros * rate;
    assert(0 <= gain) by (nonlinear_arith)
        requires
            gain == delta_micros * rate,
            0 <= delta_micros,
            0 <= rate,
    ;
    assert((current - target) * gain == -((target - current) * gain)) by (nonlinear_arith);
    if (target - current) * gain >= MICRO {
        let v = (target - current) * gain;
        assert(v / (MICRO as int) >= 1) by (nonlinear_arith)
            requires
                v >= MICRO,
                MICRO == 1_000_000,
        ;
        assert(current < target) by (nonlinear_arith)
            requires
                (target - current) * gain >= 1,
                0 <= gain,
        ;
    } else {
        let v = (current - target) * gain;
        assert(v / (MICRO as int) >= 1) by (nonlinear_arith)
            requires
                v >= MICRO,
                MICRO == 1_000_000,
        ;
        assert(current > target) by (nonlinear_arith)
            requires
                (current - target) * gain >= 1,
                0 <= gain,
        ;
    }
}

} // verus!
