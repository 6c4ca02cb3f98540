//! The numbers behind the bit patterns.
//!
//! A finite IEEE 754 value is a whole multiple of the smallest positive
//! value of its format. `scaled_magnitude` gives that multiple for a
//! magnitude pattern, and this module proves that a larger pattern stands
//! for a larger number. That is what makes comparing patterns the same as
//! comparing the numbers.
use vstd::prelude::*;
use vstd::arithmetic::power2::pow2;
use vstd::arithmetic::power2::lemma_pow2_pos;
use vstd::arithmetic::power2::lemma_pow2_strictly_increases;
use vstd::arithmetic::power2::lemma_pow2_unfold;
use vstd::arithmetic::div_mod::lemma_div_is_ordered;
use vstd::arithmetic::div_mod::lemma_fundamental_div_mod;

verus! {

/// The number that a magnitude pattern stands for, in units of the
/// format's smallest positive value. `radix` is two to the number of
/// fraction bits. The bits above the fraction are the exponent: with
/// exponent 0 the number is the fraction itself, and each further step
/// of the exponent doubles the step between neighbouring numbers.
pub open spec fn scaled_magnitude(magnitude: int, radix: int) -> int {
    let exponent = magnitude / radix;
    let fraction = magnitude % radix;
    if exponent <= 0 {
        fraction
    } else {
        (radix + fraction) * pow2((exponent - 1) as nat)
    }
}

/// A larger magnitude pattern stands for a larger number.
pub proof fn scaled_magnitude_increases(a: int, b: int, radix: int)
    requires
        0 <= a < b,
        radix > 0,
    ensures
        0 <= scaled_magnitude(a, radix) < scaled_magnitude(b, radix),
{
    let ea = a / radix;
    let fa = a % radix;
    let eb = b / radix;
    let fb = b % radix;
    lemma_fundamental_div_mod(a, radix);
    lemma_fundamental_div_mod(b, radix);
    lemma_div_is_ordered(a, b, radix);
    lemma_div_is_ordered(0, a, radix);
    if ea == eb {
        if ea > 0 {
            let p = pow2((ea - 1) as nat) as int;
            lemma_pow2_pos((ea - 1) as nat);
            assert(0 <= (radix + fa) * p < (radix + fb) * p) by (nonlinear_arith)
                requires
                    0 <= fa < fb,
                    radix > 0,
                    p > 0,
            ;
        }
    } else {
        assert(radix * ea + radix <= radix * eb) by (nonlinear_arith)
            requires
                ea + 1 <= eb,
                radix > 0,
        ;
        let q = pow2((eb - 1) as nat) as int;
        lemma_pow2_pos((eb - 1) as nat);
        assert(radix <= (radix + fb) * q) by (nonlinear_arith)
            requires
                fb >= 0,
                radix > 0,
                q >= 1,
        ;
        if ea > 0 {
            let p = pow2((ea - 1) as nat) as int;
            lemma_pow2_pos((ea - 1) as nat);
            lemma_pow2_unfold(ea as nat);
            if ea < eb - 1 {
                lemma_pow2_strictly_increases(ea as nat, (eb - 1) as nat);
            }
            assert(0 <= (radix + fa) * p < (radix + fb) * q) by (nonlinear_arith)
                requires
                    0 <= fa < radix,
                    fb >= 0,
                    p > 0,
                    2 * p <= q,
            ;
        }
    }
}

/// Two magnitude patterns compare as the numbers they stand for.
pub proof fn magnitudes_compare_as_numbers(a: int, b: int, radix: int)
    requires
        0 <= a,
        0 <= b,
        radix > 0,
    ensures
        a < b <==> scaled_magnitude(a, radix) < scaled_magnitude(b, radix),
        a == b <==> scaled_magnitude(a, radix) == scaled_magnitude(b, radix),
{
    if a < b {
        scaled_magnitude_increases(a, b, radix);
    } else if b < a {
        scaled_magnitude_increases(b, a, radix);
    }
}

} // verus!
