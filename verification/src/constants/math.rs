//! Formulas that recover cumulative totals from a level number.
use vstd::prelude::*;
use vstd::arithmetic::power::pow;
use crate::constants::{POWER_LEVEL_MULTIPLY, POWER_LEVEL_POW};

verus! {

/// Total processed power that a given power level stands for:
/// the level raised to `POWER_LEVEL_POW`, times `POWER_LEVEL_MULTIPLY`.
pub open spec fn power_for_gpl_spec(level: u32) -> int {
    pow(level as int, POWER_LEVEL_POW as nat) * POWER_LEVEL_MULTIPLY
}

/// With the exponent fixed at two, the curve is the square of the level
/// scaled by the multiplier.
pub proof fn lemma_power_for_gpl_is_scaled_square(level: u32)
    ensures
        power_for_gpl_spec(level) == level * level * 1000,
{
    reveal_with_fuel(pow, 3);
    assert(pow(level as int, 2) == level * level) by (nonlinear_arith)
        requires
            pow(level as int, 2) == level * (level * 1),
    ;
}

/// The curve never falls: a higher level stands for at least as much power.
pub proof fn lemma_power_for_gpl_monotonic(lower: u32, higher: u32)
    requires
        lower <= higher,
    ensures
        power_for_gpl_spec(lower) <= power_for_gpl_spec(higher),
{
    lemma_power_for_gpl_is_scaled_square(lower);
    lemma_power_for_gpl_is_scaled_square(higher);
    assert(lower * lower * 1000 <= higher * higher * 1000) by (nonlinear_arith)
        requires
            0 <= lower <= higher,
    ;
}

/// The total fits in 64 bits up to level 135 818 791 and at no level above
/// it, while 128 bits hold the total of every level.
pub proof fn lemma_power_for_gpl_width(level: u32)
    ensures
        power_for_gpl_spec(level) <= u64::MAX <==> level <= 135_818_791,
        0 <= power_for_gpl_spec(level) <= 18_446_744_065_119_617_025_000,
        power_for_gpl_spec(level) <= u128::MAX,
{
    lemma_power_for_gpl_is_scaled_square(level);
    if level <= 135_818_791 {
        lemma_power_for_gpl_monotonic(level, 135_818_791);
        lemma_power_for_gpl_is_scaled_square(135_818_791);
        assert(135_818_791u32 * 135_818_791u32 * 1000 == 18_446_743_988_701_681_000);
    } else {
        lemma_power_for_gpl_monotonic(135_818_792, level);
        lemma_power_for_gpl_is_scaled_square(135_818_792);
        assert(135_818_792u32 * 135_818_792u32 * 1000 == 18_446_744_260_339_264_000);
    }
    lemma_power_for_gpl_monotonic(0, level);
    lemma_power_for_gpl_is_scaled_square(0);
    lemma_power_for_gpl_monotonic(level, u32::MAX);
    lemma_power_for_gpl_is_scaled_square(u32::MAX);
    assert(0xFFFF_FFFFu32 * 0xFFFF_FFFFu32 * 1000 == 18_446_744_065_119_617_025_000);
}

/// Provides the total amount of processed power needed to achieve a given
/// level. Total over the whole 32-bit range; the result needs more than 64
/// bits for large levels, so the computation is carried out in 128 bits
/// from the first step on.
#[must_use]
pub fn power_for_gpl(level: u32) -> (total: u128)
    ensures
        total == power_for_gpl_spec(level),
        total == level * level * 1000,
{
    let base: u128 = level as u128;
    proof {
        lemma_power_for_gpl_is_scaled_square(level);
        assert(base * base <= 0xFFFF_FFFF * 0xFFFF_FFFF) by (nonlinear_arith)
            requires
                base <= 0xFFFF_FFFF,
        ;
    }
    let square: u128 = base * base;
    square * (POWER_LEVEL_MULTIPLY as u128)
}

} // verus!
