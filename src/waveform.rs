//! Square-wave arithmetic: the period in samples of a note, and the level of
//! the wave at a given phase.
use vstd::prelude::*;

verus! {

/// Period of one cycle of `frequency` Hz at `sample_rate` samples per second,
/// before octave transposition: twice the floored quotient, and `0` (silence)
/// for a zero frequency.
pub open spec fn base_period(frequency: u32, sample_rate: u32) -> int {
    if frequency == 0 {
        0
    } else {
        (sample_rate / frequency) as int * 2
    }
}

/// Period after transposition by `transpose` octave steps: a negative step
/// count multiplies the base period by `2 * |transpose|`, a positive one
/// divides it (floored) by `2 * transpose`.
pub open spec fn period_of(frequency: u32, sample_rate: u32, transpose: i32) -> int {
    let base = base_period(frequency, sample_rate);
    if transpose == 0 {
        base
    } else if transpose < 0 {
        base * (2 * -(transpose as int))
    } else {
        base / (2 * transpose as int)
    }
}

/// A period as the oscillator stores it: growth past the largest `u32`
/// saturates there.
pub open spec fn stored_period(p: int) -> int {
    if p > u32::MAX as int {
        u32::MAX as int
    } else {
        p
    }
}

/// Level of the square wave at `phase` within a cycle of `period` samples:
/// `1` in the first half, `-1` in the second, and `0` for a silent voice.
pub open spec fn level_at(phase: int, period: int) -> int {
    if period == 0 {
        0
    } else if phase < period / 2 {
        1
    } else {
        -1
    }
}

/// Period in samples of `frequency` Hz at `sample_rate`, transposed by
/// `transpose` octave steps.
pub fn period_from_frequency(frequency: u32, sample_rate: u32, transpose: i32) -> (r: u32)
    ensures
        r as int == stored_period(period_of(frequency, sample_rate, transpose)),
{
    if frequency == 0 {
        return 0;
    }
    let base: u64 = (sample_rate / frequency) as u64 * 2;
    if transpose == 0 {
        if base > u32::MAX as u64 {
            u32::MAX
        } else {
            base as u32
        }
    } else if transpose < 0 {
        let steps: u64 = 2 * ((-(transpose as i64)) as u64);
        if base > u32::MAX as u64 {
            assert(base * steps > u32::MAX) by (nonlinear_arith)
                requires
                    base > u32::MAX,
                    steps >= 2,
            ;
            u32::MAX
        } else {
            assert(base * steps <= u64::MAX) by (nonlinear_arith)
                requires
                    base <= u32::MAX,
                    steps <= 0x1_0000_0000,
            ;
            let p: u64 = base * steps;
            if p > u32::MAX as u64 {
                u32::MAX
            } else {
                p as u32
            }
        }
    } else {
        let steps: u64 = 2 * (transpose as u64);
        assert(base / steps <= base / 2) by (nonlinear_arith)
            requires
                steps >= 2,
        ;
        (base / steps) as u32
    }
}

/// Level of the square wave at `phase` within a cycle of `period` samples.
pub fn square_level(phase: u32, period: u32) -> (r: i8)
    ensures
        r as int == level_at(phase as int, period as int),
{
    if period == 0 {
        0
    } else if phase < period / 2 {
        1
    } else {
        -1
    }
}

} // verus!
