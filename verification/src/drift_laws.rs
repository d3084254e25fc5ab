//! What holds of the allowance for clock drift.

use crate::drift::{
    clock_drift, drift_allowance, float_round, float_spacing, law_drift_is_about_one_percent,
    law_drift_is_one_percent_below_2_to_the_24, round_half_even,
};

use vstd::arithmetic::div_mod::{lemma_div_multiples_vanish, lemma_mod_multiples_basic};
use vstd::arithmetic::power2::{lemma2_to64, lemma_pow2_pos, lemma_pow2_unfold, pow2};
use vstd::prelude::*;

verus! {

/// `rounded` is the number with 24 significant bits that is nearest to `n`, where numbers with 24
/// significant bits lie 2^bits apart around `n`; of two that are equally near, it is the one whose
/// last significant bit is 0.
pub open spec fn is_nearest(n: nat, rounded: nat, bits: nat) -> bool {
    let unit = pow2(bits);
    &&& n < 0x100_0000 * unit
    &&& bits > 0 ==> n >= 0x80_0000 * unit
    &&& rounded % unit == 0
    &&& 2 * rounded <= 2 * n + unit
    &&& 2 * n <= 2 * rounded + unit
    &&& 2 * rounded == 2 * n + unit || 2 * n == 2 * rounded + unit ==> (rounded / unit) % 2 == 0
}

proof fn lemma_spacing_is_a_power(n: nat, bits: nat)
    requires
        n < 0x100_0000 * pow2(bits),
        bits > 0 ==> n >= 0x80_0000 * pow2(bits),
    ensures
        float_spacing(n) == pow2(bits),
    decreases bits,
{
    lemma2_to64();
    if bits > 0 {
        lemma_pow2_unfold(bits);
        lemma_pow2_pos((bits - 1) as nat);
        lemma_spacing_is_a_power(n / 2, (bits - 1) as nat);
    }
}

proof fn lemma_spacing_bits(n: nat) -> (bits: nat)
    ensures
        n < 0x100_0000 * pow2(bits),
        bits > 0 ==> n >= 0x80_0000 * pow2(bits),
    decreases n,
{
    lemma2_to64();
    if n < 0x100_0000 {
        0
    } else {
        let bits = lemma_spacing_bits(n / 2);
        lemma_pow2_unfold(bits + 1);
        bits + 1
    }
}

proof fn lemma_nearest_is_unique(n: nat, rounded: nat, unit: nat)
    requires
        unit > 0,
        rounded % unit == 0,
        2 * rounded <= 2 * n + unit,
        2 * n <= 2 * rounded + unit,
        2 * rounded == 2 * n + unit || 2 * n == 2 * rounded + unit ==> (rounded / unit) % 2 == 0,
    ensures
        rounded == round_half_even(n, unit),
{
    let below = n / unit;
    let rest = n % unit;
    let m = rounded / unit;
    assert(below * unit + rest == n && rest < unit) by (nonlinear_arith)
        requires
            below == n / unit,
            rest == n % unit,
            unit > 0,
    ;
    assert(m * unit == rounded) by (nonlinear_arith)
        requires
            m == rounded / unit,
            rounded % unit == 0,
            unit > 0,
    ;
    assert((below + 1) * unit == below * unit + unit) by (nonlinear_arith);
    assert(m <= below + 1) by (nonlinear_arith)
        requires
            2 * (m * unit) <= 2 * (below * unit + rest) + unit,
            rest < unit,
            unit > 0,
    ;
    assert(m >= below) by (nonlinear_arith)
        requires
            2 * (below * unit + rest) <= 2 * (m * unit) + unit,
            unit > 0,
    ;
}

/// The allowance is one percent of the time to live in single precision, rounded down to whole
/// milliseconds, plus two: the time to live is rounded to 24 significant bits, multiplied by the
/// single-precision number nearest to 0.01, which is 10737418 / 2^30, and rounded again.
pub proof fn law_drift_is_taken_in_single_precision(
    ttl: usize,
    drift: usize,
    rounded: nat,
    bits: nat,
    product: nat,
    product_bits: nat,
)
    requires
        call_ensures(drift_allowance, (ttl,), drift),
        is_nearest(ttl as nat, rounded, bits),
        is_nearest(rounded * 10_737_418, product, product_bits),
    ensures
        drift == product / 0x4000_0000 + 2,
{
    lemma_pow2_pos(bits);
    lemma_pow2_pos(product_bits);
    lemma_spacing_is_a_power(ttl as nat, bits);
    lemma_nearest_is_unique(ttl as nat, rounded, pow2(bits));
    lemma_spacing_is_a_power(rounded * 10_737_418, product_bits);
    lemma_nearest_is_unique(rounded * 10_737_418, product, pow2(product_bits));
}

/// Every number has a nearest one with 24 significant bits.
pub proof fn law_every_number_is_rounded(n: nat)
    ensures
        exists|bits: nat| is_nearest(n, float_round(n), bits),
{
    let bits = lemma_spacing_bits(n);
    let unit = pow2(bits);
    lemma_pow2_pos(bits);
    lemma_spacing_is_a_power(n, bits);
    let below = n / unit;
    let rest = n % unit;
    assert(below * unit + rest == n && rest < unit) by (nonlinear_arith)
        requires
            below == n / unit,
            rest == n % unit,
            unit > 0,
    ;
    assert((below + 1) * unit == below * unit + unit) by (nonlinear_arith);
    lemma_mod_multiples_basic(below as int, unit as int);
    lemma_mod_multiples_basic((below + 1) as int, unit as int);
    lemma_div_multiples_vanish(below as int, unit as int);
    lemma_div_multiples_vanish((below + 1) as int, unit as int);
    assert(below * unit == unit * below) by (nonlinear_arith);
    assert((below + 1) * unit == unit * (below + 1)) by (nonlinear_arith);
    assert(is_nearest(n, float_round(n), bits));
}

/// For every time to live, the allowance is two milliseconds and between 1/101 and 1/99 of it, up
/// to the rounding down. Below 2^24 milliseconds it is exactly one percent and two milliseconds.
pub proof fn law_the_allowance_is_one_percent_and_two(ttl: usize, drift: usize)
    requires
        call_ensures(drift_allowance, (ttl,), drift),
    ensures
        99 * (drift - 2) <= ttl,
        ttl <= 101 * (drift - 1),
        ttl < 0x100_0000 ==> drift == ttl / 100 + 2,
        drift == clock_drift(ttl as nat),
{
    law_drift_is_about_one_percent(ttl as nat);
    if ttl < 0x100_0000 {
        law_drift_is_one_percent_below_2_to_the_24(ttl as nat);
    }
}

} // verus!
