//! Fixed-point lengths. Every length, position and speed of the match is a whole
//! number of thousandths, so that two peers compute the same bits.

use vstd::prelude::*;

verus! {

/// How many thousandths make one whole length unit.
pub const UNIT: i64 = 1000;

/// The largest length or speed a match may be configured with, in thousandths.
pub const MAX_EXTENT: i64 = 1_000_000_000;

/// A point or an extent in the plane, in thousandths.
#[derive(Clone, Copy, Debug, PartialEq, Eq, Structural)]
pub struct Vec2 {
    pub x: i64,
    pub y: i64,
}

/// `value` limited to the range from `low` to `high`.
pub open spec fn clamp_spec(value: int, low: int, high: int) -> int {
    if value < low {
        low
    } else if value > high {
        high
    } else {
        value
    }
}

/// Limits `value` to the range from `low` to `high`.
pub fn clamp(value: i64, low: i64, high: i64) -> (limited: i64)
    requires
        low <= high,
    ensures
        limited == clamp_spec(value as int, low as int, high as int),
        low <= limited <= high,
{
    if value < low {
        low
    } else if value > high {
        high
    } else {
        value
    }
}

/// The product of a length and a fixed-point factor, rounded toward zero.
pub open spec fn scale_spec(length: int, factor: int) -> int {
    if length >= 0 {
        (length * factor) / (UNIT as int)
    } else {
        -(((-length) * factor) / (UNIT as int))
    }
}

/// Multiplies a length by a fixed-point factor between zero and one, rounding
/// toward zero.
pub fn scale(length: i64, factor: i64) -> (scaled: i64)
    requires
        -MAX_EXTENT <= length <= MAX_EXTENT,
        0 <= factor <= UNIT,
    ensures
        scaled == scale_spec(length as int, factor as int),
        length >= 0 ==> 0 <= scaled <= length,
        length <= 0 ==> length <= scaled <= 0,
{
    if length >= 0 {
        assert(0 <= length * factor <= length * 1000) by (nonlinear_arith)
            requires
                0 <= length,
                0 <= factor <= 1000,
        ;
        (length * factor) / UNIT
    } else {
        let size: i64 = -length;
        assert(0 <= size * factor <= size * 1000) by (nonlinear_arith)
            requires
                0 <= size,
                0 <= factor <= 1000,
        ;
        -((size * factor) / UNIT)
    }
}

/// Whether `step` is what a vector of length `speed` covers along each axis
/// when it points along a diagonal: the largest whole number whose doubled
/// square does not exceed the square of `speed`.
pub open spec fn is_diagonal_of(step: int, speed: int) -> bool {
    0 <= step && 2 * step * step <= speed * speed < 2 * (step + 1) * (step + 1)
}

/// The per-axis step of a diagonal vector of length `speed`.
pub open spec fn diagonal_spec(speed: int) -> int {
    choose|step: int| is_diagonal_of(step, speed)
}

/// Only one number is the diagonal step of a given speed.
pub proof fn lemma_diagonal_unique(first: int, second: int, speed: int)
    requires
        is_diagonal_of(first, speed),
        is_diagonal_of(second, speed),
    ensures
        first == second,
{
    if first < second {
        assert(2 * (first + 1) * (first + 1) <= 2 * second * second) by (nonlinear_arith)
            requires
                0 <= first,
                first + 1 <= second,
        ;
    } else if second < first {
        assert(2 * (second + 1) * (second + 1) <= 2 * first * first) by (nonlinear_arith)
            requires
                0 <= second,
                second + 1 <= first,
        ;
    }
}

/// Every speed from zero up has a diagonal step.
pub proof fn lemma_diagonal_exists(speed: int)
    requires
        0 <= speed,
    ensures
        is_diagonal_of(diagonal_spec(speed), speed),
    decreases speed,
{
    if speed == 0 {
        assert(is_diagonal_of(0, 0));
    } else {
        lemma_diagonal_exists(speed - 1);
        let before = diagonal_spec(speed - 1);
        // The square grows by less than what two more steps would cover.
        assert(speed * speed < 2 * (before + 2) * (before + 2)) by (nonlinear_arith)
            requires
                0 <= before,
                1 <= speed,
                (speed - 1) * (speed - 1) < 2 * (before + 1) * (before + 1),
                2 * before * before <= (speed - 1) * (speed - 1),
        ;
        assert(2 * before * before <= speed * speed) by (nonlinear_arith)
            requires
                1 <= speed,
                2 * before * before <= (speed - 1) * (speed - 1),
        ;
        if speed * speed < 2 * (before + 1) * (before + 1) {
            assert(is_diagonal_of(before, speed));
        } else {
            assert(is_diagonal_of(before + 1, speed));
        }
    }
}

/// A number known to be the diagonal step of `speed` is `diagonal_spec(speed)`.
pub proof fn lemma_diagonal_is(step: int, speed: int)
    requires
        is_diagonal_of(step, speed),
    ensures
        diagonal_spec(speed) == step,
{
    lemma_diagonal_unique(diagonal_spec(speed), step, speed);
}

/// Computes the per-axis step of a diagonal vector of length `speed`.
pub fn diagonal(speed: i64) -> (step: i64)
    requires
        0 <= speed <= MAX_EXTENT,
    ensures
        step == diagonal_spec(speed as int),
        is_diagonal_of(step as int, speed as int),
        0 <= step <= speed,
{
    assert(0 <= speed * speed <= 1_000_000_000 * 1_000_000_000) by (nonlinear_arith)
        requires
            0 <= speed <= 1_000_000_000,
    ;
    let square: i64 = speed * speed;
    let mut low: i64 = 0;
    let mut high: i64 = speed + 1;
    assert(2 * (speed + 1) * (speed + 1) > speed * speed) by (nonlinear_arith)
        requires
            0 <= speed,
    ;
    while high - low > 1
        invariant
            0 <= low < high <= speed + 1,
            0 <= speed <= MAX_EXTENT,
            square == speed * speed,
            2 * low * low <= square,
            square < 2 * high * high,
        decreases high - low,
    {
        let middle: i64 = low + (high - low) / 2;
        assert(0 <= middle * middle <= 1_000_000_001 * 1_000_000_001) by (nonlinear_arith)
            requires
                0 <= middle <= 1_000_000_001,
        ;
        assert(2 * middle * middle == 2 * (middle * middle)) by (nonlinear_arith);
        if 2 * (middle * middle) <= square {
            low = middle;
        } else {
            high = middle;
        }
    }
    assert(2 * (low + 1) * (low + 1) == 2 * high * high);
    assert(low <= speed) by {
        if low > speed {
            assert(2 * low * low > speed * speed) by (nonlinear_arith)
                requires
                    0 <= speed < low,
            ;
        }
    }
    proof {
        lemma_diagonal_is(low as int, speed as int);
    }
    low
}

} // verus!
