//! Fixed-point sine levels for the visualization.
//!
//! A bar height `0.5 + 0.5*sin(x)` is computed on the integer scale of
//! `BAR_SCALE`, with the angle given in tenths of a radian (the engine
//! advances its time phase by one tenth per tick). The angle is reduced
//! modulo a full turn in microradians and the half sine on `[0, pi]` is
//! evaluated with Bhaskara's rational approximation
//! `sin(x) ~= 16x(pi - x) / (5 pi^2 - 4x(pi - x))`, whose error stays
//! below two thousandths of full height — far below what one on-screen
//! pixel resolves. Everything here is plain integer arithmetic, so the
//! whole computation is verified: the result is proved to equal
//! `sine_level_spec` and to stay within the bar scale.

use vstd::prelude::*;

verus! {

use crate::BAR_SCALE;
use vstd::arithmetic::div_mod::lemma_div_is_ordered;
use vstd::arithmetic::div_mod::lemma_div_multiples_vanish;
use vstd::arithmetic::div_mod::lemma_mul_mod_noop_left;

/// Microradians in a full turn (two pi).
pub const TURN_URAD: u64 = 6_283_185;

/// Microradians in a half turn (pi).
pub const HALF_TURN_URAD: u64 = 3_141_593;

/// Microradians in one tenth of a radian, the phase step of a tick.
pub const URAD_PER_TENTH: u64 = 100_000;

/// Half of `BAR_SCALE`: the level of `0.5`, around which the sine swings.
pub const HALF_LEVEL: u32 = 500_000;

/// The angle `tenths / 10` radians, reduced to `[0, 2 pi)`, in microradians.
pub open spec fn angle_urad(tenths: int) -> int {
    (tenths * URAD_PER_TENTH) % (TURN_URAD as int)
}

/// The parabola `x * (pi - x)`: zero at both ends of the half turn,
/// largest in its middle. Both Bhaskara terms are built from it.
pub open spec fn swing_of(x: int) -> int {
    x * (HALF_TURN_URAD - x)
}

/// Numerator of Bhaskara's half-sine approximation at `x` microradians.
pub open spec fn half_sine_num(x: int) -> int {
    16 * swing_of(x)
}

/// Denominator of Bhaskara's half-sine approximation at `x` microradians.
pub open spec fn half_sine_den(x: int) -> int {
    5 * ((HALF_TURN_URAD as int) * (HALF_TURN_URAD as int)) - 4 * swing_of(x)
}

/// The bar level `0.5 + 0.5*sin(tenths / 10)` on the scale of `BAR_SCALE`:
/// the angle is reduced to one turn, the first half turn lifts the level
/// above the midline, the second half lowers it symmetrically.
pub open spec fn sine_level_spec(tenths: int) -> int {
    let x = angle_urad(tenths);
    if x <= HALF_TURN_URAD {
        HALF_LEVEL + (HALF_LEVEL * half_sine_num(x)) / half_sine_den(x)
    } else {
        HALF_LEVEL - (HALF_LEVEL * half_sine_num(x - HALF_TURN_URAD)) / half_sine_den(
            x - HALF_TURN_URAD,
        )
    }
}

/// On `[0, pi]` the approximation's fraction lies in `[0, 1]`: the
/// numerator is at most the (positive) denominator, because
/// `4x(pi - x) <= pi^2` — the square `(pi - 2x)^2` is nonnegative.
pub proof fn lemma_half_sine_fraction_bounds(x: int)
    requires
        0 <= x <= HALF_TURN_URAD,
    ensures
        0 <= swing_of(x),
        4 * swing_of(x) <= (HALF_TURN_URAD as int) * (HALF_TURN_URAD as int),
        0 < half_sine_den(x),
        0 <= half_sine_num(x) <= half_sine_den(x),
{
    let p = HALF_TURN_URAD as int;
    assert(0 <= x * (p - x) && 4 * (x * (p - x)) <= p * p) by (nonlinear_arith)
        requires
            0 <= x <= p,
    ;
}

/// `(HALF_LEVEL * num) / den` stays in `[0, HALF_LEVEL]` whenever
/// `0 <= num <= den`.
pub proof fn lemma_half_scaled_fraction_bounds(num: int, den: int)
    requires
        0 < den,
        0 <= num <= den,
    ensures
        0 <= (HALF_LEVEL * num) / den <= HALF_LEVEL,
{
    lemma_div_is_ordered(0, HALF_LEVEL * num, den);
    lemma_div_is_ordered(HALF_LEVEL * num, HALF_LEVEL * den, den);
    lemma_div_multiples_vanish(HALF_LEVEL as int, den);
    assert(HALF_LEVEL * den == den * (HALF_LEVEL as int));
}

/// `(HALF_LEVEL * half_sine_num(x)) / half_sine_den(x)` for an angle in
/// the first half turn, exactly as the spec states it.
fn half_scaled_fraction(x: u64) -> (q: u32)
    requires
        x <= HALF_TURN_URAD,
    ensures
        q as int == (HALF_LEVEL * half_sine_num(x as int)) / half_sine_den(x as int),
        q <= HALF_LEVEL,
{
    proof {
        lemma_half_sine_fraction_bounds(x as int);
        lemma_half_scaled_fraction_bounds(half_sine_num(x as int), half_sine_den(x as int));
    }
    let swing: u64 = x * (HALF_TURN_URAD - x);
    let num: u64 = 16 * swing;
    let den: u64 = 5 * (HALF_TURN_URAD * HALF_TURN_URAD) - 4 * swing;
    let scaled: u128 = (HALF_LEVEL as u128) * (num as u128);
    let q: u128 = scaled / (den as u128);
    q as u32
}

/// The bar level `0.5 + 0.5*sin(tenths / 10)` on the scale of `BAR_SCALE`,
/// computed entirely in integers.
pub fn sine_level(tenths: u64) -> (r: u32)
    ensures
        r as int == sine_level_spec(tenths as int),
        r <= BAR_SCALE,
{
    proof {
        lemma_mul_mod_noop_left(tenths as int, URAD_PER_TENTH as int, TURN_URAD as int);
    }
    let x: u64 = (tenths % TURN_URAD) * URAD_PER_TENTH % TURN_URAD;
    if x <= HALF_TURN_URAD {
        let q: u32 = half_scaled_fraction(x);
        HALF_LEVEL + q
    } else {
        let q: u32 = half_scaled_fraction(x - HALF_TURN_URAD);
        HALF_LEVEL - q
    }
}

} // verus!
