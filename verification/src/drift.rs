//! How much of a time to live is given up for clocks that run at different speeds.
//!
//! The allowance is one percent of the time to live plus two milliseconds. The percentage is
//! taken in single-precision arithmetic: both the time to live and its product with 0.01 are
//! rounded to 24 significant bits. The functions here carry that arithmetic out on integers.

use vstd::arithmetic::power2::{lemma2_to64, lemma_pow2_unfold, pow2};
use vstd::prelude::*;

verus! {

/// 0.01 in single precision is this number of 2^-30ths.
pub const DRIFT_FACTOR: u128 = 10_737_418;

/// The denominator of `DRIFT_FACTOR`: 2^30.
pub const DRIFT_FACTOR_UNIT: u128 = 1_073_741_824;

/// The first integer with more bits than a single-precision significand holds: 2^24.
pub const SIGNIFICAND_LIMIT: u128 = 16_777_216;

/// The part of the allowance that does not depend on the time to live, in milliseconds.
pub const DRIFT_BASE: u128 = 2;

/// The distance between neighbouring single-precision numbers around `n`: the power of two that
/// leaves `n` with 24 significant bits.
pub open spec fn float_spacing(n: nat) -> nat
    decreases n,
{
    if n < SIGNIFICAND_LIMIT {
        1
    } else {
        2 * float_spacing(n / 2)
    }
}

/// The multiple of `unit` that is nearest to `n`; of two that are equally near, the even one.
pub open spec fn round_half_even(n: nat, unit: nat) -> nat {
    let below = n / unit;
    let rest = n % unit;
    if 2 * rest < unit || (2 * rest == unit && below % 2 == 0) {
        below * unit
    } else {
        (below + 1) * unit
    }
}

/// The single-precision number nearest to `n`.
pub open spec fn float_round(n: nat) -> nat {
    round_half_even(n, float_spacing(n))
}

/// One percent of `ttl` in single precision, rounded down.
pub open spec fn float_percent(ttl: nat) -> nat {
    float_round(float_round(ttl) * DRIFT_FACTOR as nat) / DRIFT_FACTOR_UNIT as nat
}

/// The allowance for clock drift on a time to live, in milliseconds.
pub open spec fn clock_drift(ttl: nat) -> nat {
    float_percent(ttl) + DRIFT_BASE as nat
}

proof fn lemma_spacing_bounds(n: nat)
    ensures
        float_spacing(n) >= 1,
        n < SIGNIFICAND_LIMIT * float_spacing(n),
        n >= SIGNIFICAND_LIMIT ==> 2 * n >= SIGNIFICAND_LIMIT * float_spacing(n),
        float_spacing(n) <= n || float_spacing(n) == 1,
    decreases n,
{
    if n >= SIGNIFICAND_LIMIT {
        lemma_spacing_bounds(n / 2);
    }
}

/// `n` to the nearest single-precision number.
fn round_to_float(n: u128) -> (r: u128)
    requires
        n < 0x1_0000_0000_0000_0000_0000_0000,
    ensures
        r == float_round(n as nat),
        r <= 2 * n,
{
    let mut spacing: u128 = 1;
    let mut top: u128 = n;
    while top >= SIGNIFICAND_LIMIT
        invariant
            n < 0x1_0000_0000_0000_0000_0000_0000,
            spacing >= 1,
            top * spacing <= n,
            top >= 1 || spacing == 1,
            float_spacing(n as nat) == spacing * float_spacing(top as nat),
        decreases top,
    {
        proof {
            assert((top / 2) * (spacing * 2) <= top * spacing) by (nonlinear_arith);
            assert(2 * spacing <= top * spacing) by (nonlinear_arith)
                requires
                    top >= 2,
                    spacing >= 1,
            ;
            let inner = float_spacing((top / 2) as nat);
            assert(float_spacing(top as nat) == 2 * inner);
            assert(spacing * (2 * inner) == (spacing * 2) * inner) by (nonlinear_arith);
        }
        top = top / 2;
        spacing = spacing * 2;
    }
    proof {
        assert(spacing * 1 == spacing);
        assert(spacing <= n || spacing == 1) by {
            assert(top >= 1 ==> spacing <= top * spacing) by (nonlinear_arith);
        }
    }
    let below: u128 = n / spacing;
    let rest: u128 = n % spacing;
    proof {
        assert(below * spacing + rest == n && rest < spacing) by (nonlinear_arith)
            requires
                below == n / spacing,
                rest == n % spacing,
                spacing >= 1,
        ;
        assert((below + 1) * spacing == below * spacing + spacing) by (nonlinear_arith);
    }
    if rest * 2 < spacing || (rest * 2 == spacing && below % 2 == 0) {
        below * spacing
    } else {
        proof {
            assert(rest >= 1);
        }
        (below + 1) * spacing
    }
}

/// The allowance for clock drift on a time to live of `ttl` milliseconds.
pub fn drift_allowance(ttl: usize) -> (drift: usize)
    ensures
        drift == clock_drift(ttl as nat),
{
    let rounded: u128 = round_to_float(ttl as u128);
    proof {
        assert(rounded * DRIFT_FACTOR < 0x1_0000_0000_0000_0000_0000_0000) by (nonlinear_arith)
            requires
                rounded <= 2 * 0xffff_ffff_ffff_ffff,
                DRIFT_FACTOR == 10_737_418,
        ;
        law_drift_is_about_one_percent(ttl as nat);
    }
    let product: u128 = round_to_float(rounded * DRIFT_FACTOR);
    (product / DRIFT_FACTOR_UNIT + DRIFT_BASE) as usize
}

/// `round_half_even` moves a number by at most half a unit, onto a multiple of the unit.
proof fn lemma_round_half_even(n: nat, unit: nat)
    requires
        unit >= 1,
    ensures
        2 * round_half_even(n, unit) <= 2 * n + unit,
        2 * n <= 2 * round_half_even(n, unit) + unit,
        unit == 1 ==> round_half_even(n, unit) == n,
{
    let below = n / unit;
    let rest = n % unit;
    assert(below * unit + rest == n && rest < unit) by (nonlinear_arith)
        requires
            below == n / unit,
            rest == n % unit,
            unit >= 1,
    ;
    assert((below + 1) * unit == below * unit + unit) by (nonlinear_arith);
}

/// Rounding to single precision moves a number by at most one part in 2^24.
proof fn lemma_round_error(n: nat)
    ensures
        16_777_216 * float_round(n) <= 16_777_217 * n,
        16_777_215 * n <= 16_777_216 * float_round(n),
        n < SIGNIFICAND_LIMIT ==> float_round(n) == n,
{
    lemma_spacing_bounds(n);
    lemma_round_half_even(n, float_spacing(n));
}

/// For every time to live, the part of the allowance that grows with it lies between 1/101 and
/// 1/99 of it, up to the rounding down to whole milliseconds.
pub proof fn law_drift_is_about_one_percent(ttl: nat)
    ensures
        99 * (clock_drift(ttl) - 2) <= ttl,
        ttl <= 101 * (clock_drift(ttl) - 1),
{
    let rounded = float_round(ttl);
    let product = rounded * DRIFT_FACTOR as nat;
    lemma_round_error(ttl);
    lemma_round_error(product);
    let percent = float_percent(ttl);
    let nearest = float_round(product);
    assert(product == rounded * 10_737_418);
    assert(1_000 * nearest <= 1_001 * product && 999 * product <= 1_000 * nearest);
    assert(1_000 * rounded <= 1_001 * ttl && 999 * ttl <= 1_000 * rounded);
    assert(percent == nearest / 1_073_741_824);
    assert(percent * 1_073_741_824 <= nearest < (percent + 1) * 1_073_741_824);
    assert(99 * percent <= ttl);
    assert(ttl <= 101 * (percent + 1));
}

/// The spacing around a number of at most `24 + bits` bits divides 2^bits; the quotient is
/// returned.
proof fn lemma_spacing_divides(n: nat, bits: nat) -> (quotient: nat)
    requires
        n < SIGNIFICAND_LIMIT * pow2(bits),
    ensures
        quotient * float_spacing(n) == pow2(bits),
    decreases bits,
{
    if n < SIGNIFICAND_LIMIT {
        assert(pow2(bits) * 1 == pow2(bits));
        pow2(bits)
    } else {
        lemma2_to64();
        assert(bits > 0);
        lemma_pow2_unfold(bits);
        let quotient = lemma_spacing_divides(n / 2, (bits - 1) as nat);
        let half = float_spacing(n / 2);
        assert(quotient * (2 * half) == 2 * (quotient * half)) by (nonlinear_arith);
        quotient
    }
}

/// Of two multiples of `unit`, the one that is less than a unit below the other is not below it.
proof fn lemma_multiples_apart(a: nat, b: nat, unit: nat)
    requires
        a * unit + unit > b * unit,
    ensures
        a * unit >= b * unit,
{
    assert(a >= b) by (nonlinear_arith)
        requires
            a * unit + unit > b * unit,
    ;
    assert(a * unit >= b * unit) by (nonlinear_arith)
        requires
            a >= b,
    ;
}

/// Up to four and a half hours, the allowance is exactly one percent of the time to live,
/// rounded down, plus two milliseconds.
pub proof fn law_drift_is_one_percent_below_2_to_the_24(ttl: nat)
    requires
        ttl < SIGNIFICAND_LIMIT,
    ensures
        clock_drift(ttl) == ttl / 100 + 2,
{
    lemma_round_error(ttl);
    let hundreds = ttl / 100;
    let product = ttl * DRIFT_FACTOR as nat;
    let spacing = float_spacing(product);
    let rounded = float_round(product);
    lemma2_to64();
    lemma_spacing_bounds(product);
    lemma_round_half_even(product, spacing);
    let quotient = lemma_spacing_divides(product, 30);
    let below = product / spacing;
    let multiple = if rounded == below * spacing {
        below
    } else {
        below + 1
    };
    let target = hundreds * quotient;
    assert(target * spacing == hundreds * 1_073_741_824) by (nonlinear_arith)
        requires
            target == hundreds * quotient,
            quotient * spacing == 1_073_741_824,
    ;
    assert(rounded + spacing > hundreds * 1_073_741_824);
    lemma_multiples_apart(multiple, target, spacing);
    assert(rounded < (hundreds + 1) * 1_073_741_824);
}

} // verus!
