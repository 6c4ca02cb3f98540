//! IEEE 754 quantities held by their bit patterns.
//!
//! No sums, products or roots are formed here. What this module does is
//! exact on the bit pattern: it tells which of two values is smaller,
//! whether a value is finite or negative, changes a sign, and cuts a
//! value off to a whole number.
//!
//! A value is a sign and a magnitude. Magnitudes below the pattern of
//! infinity are finite, the pattern of infinity itself is infinite, and
//! every larger magnitude is a NaN. The `rank` of a value places it on the
//! extended real line: two values that are not NaN compare exactly as their
//! ranks do, with both zeros at rank 0.
use vstd::prelude::*;
use vstd::arithmetic::power2::pow2;
use vstd::arithmetic::power2::lemma_pow2_adds;
use vstd::arithmetic::power2::lemma_pow2_pos;
use vstd::arithmetic::power2::lemma_pow2_strictly_increases;
use vstd::arithmetic::power2::lemma2_to64;
use vstd::arithmetic::div_mod::lemma_basic_div;
use vstd::arithmetic::div_mod::lemma_div_is_ordered;
use vstd::arithmetic::div_mod::lemma_div_multiples_vanish;
use vstd::arithmetic::div_mod::lemma_div_multiples_vanish_quotient;
use vstd::bits::lemma_u64_shl_is_mul;
use vstd::bits::lemma_u64_shr_is_div;
use crate::exact::magnitudes_compare_as_numbers;
use crate::exact::scaled_magnitude;

verus! {

/// The sign bit of a binary64 pattern.
pub const SIGN_64: u64 = 0x8000_0000_0000_0000;

/// The magnitude of binary64 infinity; larger magnitudes are NaN.
pub const INFINITY_64: u64 = 0x7FF0_0000_0000_0000;

/// The pattern of the binary64 value 1.
pub const ONE_64: u64 = 0x3FF0_0000_0000_0000;

/// Two to the number of fraction bits of a binary64 pattern.
pub const RADIX_64: u64 = 0x0010_0000_0000_0000;

/// The sign bit of a binary32 pattern.
pub const SIGN_32: u32 = 0x8000_0000;

/// The magnitude of binary32 infinity; larger magnitudes are NaN.
pub const INFINITY_32: u32 = 0x7F80_0000;

/// The pattern of the binary32 value 1.
pub const ONE_32: u32 = 0x3F80_0000;

/// Two to the number of fraction bits of a binary32 pattern.
pub const RADIX_32: u32 = 0x0080_0000;

/// A double precision quantity.
#[derive(Clone, Copy, Debug, PartialEq, Eq, Structural)]
pub struct Binary64 {
    pub bits: u64,
}

impl Binary64 {
    /// Whether the sign bit is set.
    pub open spec fn negative(self) -> bool {
        self.bits >= SIGN_64
    }

    /// The pattern with the sign bit cleared.
    pub open spec fn magnitude(self) -> int {
        if self.negative() {
            self.bits - SIGN_64
        } else {
            self.bits as int
        }
    }

    pub open spec fn nan(self) -> bool {
        self.magnitude() > INFINITY_64
    }

    pub open spec fn finite(self) -> bool {
        self.magnitude() < INFINITY_64
    }

    /// Position on the extended real line; meaningful unless `nan()`.
    pub open spec fn rank(self) -> int {
        if self.negative() {
            -self.magnitude()
        } else {
            self.magnitude()
        }
    }

    /// `self < other` as IEEE 754 defines it: false when either is NaN.
    pub open spec fn lt_spec(self, other: Binary64) -> bool {
        !self.nan() && !other.nan() && self.rank() < other.rank()
    }

    /// `self <= other` as IEEE 754 defines it: false when either is NaN.
    pub open spec fn le_spec(self, other: Binary64) -> bool {
        !self.nan() && !other.nan() && self.rank() <= other.rank()
    }

    /// `self == other` as IEEE 754 defines it: NaN equals nothing, and the
    /// two zeros are equal.
    pub open spec fn same_spec(self, other: Binary64) -> bool {
        !self.nan() && !other.nan() && self.rank() == other.rank()
    }

    /// The value with the opposite sign.
    pub open spec fn neg_spec(self) -> Binary64 {
        if self.negative() {
            Binary64 { bits: (self.bits - SIGN_64) as u64 }
        } else {
            Binary64 { bits: (self.bits + SIGN_64) as u64 }
        }
    }

    /// The value with the sign cleared.
    pub open spec fn abs_spec(self) -> Binary64 {
        Binary64 { bits: self.magnitude() as u64 }
    }

    pub open spec fn zero_spec() -> Binary64 {
        Binary64 { bits: 0 }
    }

    pub open spec fn one_spec() -> Binary64 {
        Binary64 { bits: ONE_64 }
    }

    pub open spec fn infinity_spec() -> Binary64 {
        Binary64 { bits: INFINITY_64 }
    }

    /// The number that a finite pattern stands for, as a whole multiple
    /// of the smallest positive binary64 value, two to the power -1074.
    pub open spec fn exact(self) -> int {
        let scaled = scaled_magnitude(self.magnitude(), RADIX_64 as int);
        if self.negative() {
            -scaled
        } else {
            scaled
        }
    }

    /// Ranks compare as the numbers do that the patterns stand for.
    pub proof fn order_is_numeric(a: Binary64, b: Binary64)
        ensures
            a.rank() < b.rank() <==> a.exact() < b.exact(),
            a.rank() == b.rank() <==> a.exact() == b.exact(),
    {
        magnitudes_compare_as_numbers(a.magnitude(), b.magnitude(), RADIX_64 as int);
        magnitudes_compare_as_numbers(0, a.magnitude(), RADIX_64 as int);
        magnitudes_compare_as_numbers(0, b.magnitude(), RADIX_64 as int);
    }

    pub fn from_bits(bits: u64) -> (r: Binary64)
        ensures
            r.bits == bits,
    {
        Binary64 { bits }
    }

    pub fn to_bits(self) -> (r: u64)
        ensures
            r == self.bits,
    {
        self.bits
    }

    /// Positive zero.
    pub fn zero() -> (r: Binary64)
        ensures
            r == Binary64::zero_spec(),
    {
        Binary64 { bits: 0 }
    }

    pub fn one() -> (r: Binary64)
        ensures
            r == Binary64::one_spec(),
    {
        Binary64 { bits: ONE_64 }
    }

    /// Positive infinity.
    pub fn infinity() -> (r: Binary64)
        ensures
            r == Binary64::infinity_spec(),
    {
        Binary64 { bits: INFINITY_64 }
    }

    pub fn is_negative(self) -> (r: bool)
        ensures
            r == self.negative(),
    {
        self.bits >= SIGN_64
    }

    fn magnitude_bits(self) -> (r: u64)
        ensures
            r == self.magnitude(),
            r < SIGN_64,
    {
        if self.bits >= SIGN_64 {
            self.bits - SIGN_64
        } else {
            self.bits
        }
    }

    pub fn is_nan(self) -> (r: bool)
        ensures
            r == self.nan(),
    {
        self.magnitude_bits() > INFINITY_64
    }

    pub fn is_finite(self) -> (r: bool)
        ensures
            r == self.finite(),
    {
        self.magnitude_bits() < INFINITY_64
    }

    pub fn lt(self, other: Binary64) -> (r: bool)
        ensures
            r == self.lt_spec(other),
    {
        if self.is_nan() || other.is_nan() {
            return false;
        }
        let a: u64 = self.magnitude_bits();
        let b: u64 = other.magnitude_bits();
        if self.is_negative() {
            if other.is_negative() {
                b < a
            } else {
                a != 0 || b != 0
            }
        } else {
            !other.is_negative() && a < b
        }
    }

    pub fn le(self, other: Binary64) -> (r: bool)
        ensures
            r == self.le_spec(other),
    {
        if self.is_nan() || other.is_nan() {
            return false;
        }
        !other.lt(self)
    }

    pub fn gt(self, other: Binary64) -> (r: bool)
        ensures
            r == other.lt_spec(self),
    {
        other.lt(self)
    }

    pub fn ge(self, other: Binary64) -> (r: bool)
        ensures
            r == other.le_spec(self),
    {
        other.le(self)
    }

    /// Numeric equality: the two zeros are the same, NaN is the same as
    /// nothing.
    pub fn same(self, other: Binary64) -> (r: bool)
        ensures
            r == self.same_spec(other),
    {
        self.le(other) && other.le(self)
    }

    pub fn neg(self) -> (r: Binary64)
        ensures
            r == self.neg_spec(),
            r.magnitude() == self.magnitude(),
            r.negative() != self.negative(),
    {
        if self.bits >= SIGN_64 {
            Binary64 { bits: self.bits - SIGN_64 }
        } else {
            Binary64 { bits: self.bits + SIGN_64 }
        }
    }

    pub fn abs(self) -> (r: Binary64)
        ensures
            r == self.abs_spec(),
            !r.negative(),
            r.magnitude() == self.magnitude(),
    {
        Binary64 { bits: self.magnitude_bits() }
    }
}

/// A single precision quantity.
#[derive(Clone, Copy, Debug, PartialEq, Eq, Structural)]
pub struct Binary32 {
    pub bits: u32,
}

impl Binary32 {
    /// Whether the sign bit is set.
    pub open spec fn negative(self) -> bool {
        self.bits >= SIGN_32
    }

    /// The pattern with the sign bit cleared.
    pub open spec fn magnitude(self) -> int {
        if self.negative() {
            self.bits - SIGN_32
        } else {
            self.bits as int
        }
    }

    pub open spec fn nan(self) -> bool {
        self.magnitude() > INFINITY_32
    }

    pub open spec fn finite(self) -> bool {
        self.magnitude() < INFINITY_32
    }

    /// Position on the extended real line; meaningful unless `nan()`.
    pub open spec fn rank(self) -> int {
        if self.negative() {
            -self.magnitude()
        } else {
            self.magnitude()
        }
    }

    /// `self < other` as IEEE 754 defines it: false when either is NaN.
    pub open spec fn lt_spec(self, other: Binary32) -> bool {
        !self.nan() && !other.nan() && self.rank() < other.rank()
    }

    pub open spec fn zero_spec() -> Binary32 {
        Binary32 { bits: 0 }
    }

    pub open spec fn one_spec() -> Binary32 {
        Binary32 { bits: ONE_32 }
    }

    /// Whether the value is a number between 0 and 1, ends included.
    pub open spec fn in_unit_interval(self) -> bool {
        !self.nan() && 0 <= self.rank() <= Binary32::one_spec().rank()
    }

    /// The smaller of two values, a NaN giving way to the other value.
    pub open spec fn min_spec(self, other: Binary32) -> Binary32 {
        if self.nan() {
            other
        } else if other.lt_spec(self) {
            other
        } else {
            self
        }
    }

    /// The larger of two values, a NaN giving way to the other value.
    pub open spec fn max_spec(self, other: Binary32) -> Binary32 {
        if self.nan() {
            other
        } else if self.lt_spec(other) {
            other
        } else {
            self
        }
    }

    /// The value limited to the interval from 0 to 1: first capped at 1,
    /// then raised to 0. A NaN becomes 1.
    pub open spec fn clamp_unit_spec(self) -> Binary32 {
        self.min_spec(Binary32::one_spec()).max_spec(Binary32::zero_spec())
    }

    /// The number that a finite pattern stands for, as a whole multiple
    /// of the smallest positive binary32 value, two to the power -149.
    pub open spec fn exact(self) -> int {
        let scaled = scaled_magnitude(self.magnitude(), RADIX_32 as int);
        if self.negative() {
            -scaled
        } else {
            scaled
        }
    }

    /// The whole part of the number's magnitude: what is left when the
    /// digits after the point are cut off.
    pub open spec fn whole(self) -> int {
        scaled_magnitude(self.magnitude(), RADIX_32 as int) / (pow2(149) as int)
    }

    /// The number cut off toward zero and brought into the range of a
    /// signed 32-bit integer; 0 for a NaN.
    pub open spec fn to_i32_spec(self) -> i32 {
        if self.nan() {
            0
        } else if self.negative() {
            if self.whole() >= 0x8000_0000 {
                i32::MIN
            } else {
                (-self.whole()) as i32
            }
        } else {
            if self.whole() >= 0x8000_0000 {
                i32::MAX
            } else {
                self.whole() as i32
            }
        }
    }

    /// The number cut off toward zero and brought into the range of an
    /// unsigned 8-bit integer; 0 for a NaN.
    pub open spec fn to_u8_spec(self) -> u8 {
        if self.nan() || self.negative() {
            0
        } else if self.whole() >= 256 {
            255
        } else {
            self.whole() as u8
        }
    }

    /// Ranks compare as the numbers do that the patterns stand for.
    pub proof fn order_is_numeric(a: Binary32, b: Binary32)
        ensures
            a.rank() < b.rank() <==> a.exact() < b.exact(),
            a.rank() == b.rank() <==> a.exact() == b.exact(),
    {
        magnitudes_compare_as_numbers(a.magnitude(), b.magnitude(), RADIX_32 as int);
        magnitudes_compare_as_numbers(0, a.magnitude(), RADIX_32 as int);
        magnitudes_compare_as_numbers(0, b.magnitude(), RADIX_32 as int);
    }

    pub fn from_bits(bits: u32) -> (r: Binary32)
        ensures
            r.bits == bits,
    {
        Binary32 { bits }
    }

    pub fn to_bits(self) -> (r: u32)
        ensures
            r == self.bits,
    {
        self.bits
    }

    /// Positive zero.
    pub fn zero() -> (r: Binary32)
        ensures
            r == Binary32::zero_spec(),
    {
        Binary32 { bits: 0 }
    }

    pub fn one() -> (r: Binary32)
        ensures
            r == Binary32::one_spec(),
    {
        Binary32 { bits: ONE_32 }
    }

    pub fn is_negative(self) -> (r: bool)
        ensures
            r == self.negative(),
    {
        self.bits >= SIGN_32
    }

    fn magnitude_bits(self) -> (r: u32)
        ensures
            r == self.magnitude(),
            r < SIGN_32,
    {
        if self.bits >= SIGN_32 {
            self.bits - SIGN_32
        } else {
            self.bits
        }
    }

    pub fn is_nan(self) -> (r: bool)
        ensures
            r == self.nan(),
    {
        self.magnitude_bits() > INFINITY_32
    }

    pub fn is_finite(self) -> (r: bool)
        ensures
            r == self.finite(),
    {
        self.magnitude_bits() < INFINITY_32
    }

    pub fn lt(self, other: Binary32) -> (r: bool)
        ensures
            r == self.lt_spec(other),
    {
        if self.is_nan() || other.is_nan() {
            return false;
        }
        let a: u32 = self.magnitude_bits();
        let b: u32 = other.magnitude_bits();
        if self.is_negative() {
            if other.is_negative() {
                b < a
            } else {
                a != 0 || b != 0
            }
        } else {
            !other.is_negative() && a < b
        }
    }

    pub fn min(self, other: Binary32) -> (r: Binary32)
        ensures
            r == self.min_spec(other),
    {
        if self.is_nan() || other.lt(self) {
            other
        } else {
            self
        }
    }

    pub fn max(self, other: Binary32) -> (r: Binary32)
        ensures
            r == self.max_spec(other),
    {
        if self.is_nan() || self.lt(other) {
            other
        } else {
            self
        }
    }

    /// Limits the value to the interval from 0 to 1. A NaN becomes 1.
    pub fn clamp_unit(self) -> (r: Binary32)
        ensures
            r == self.clamp_unit_spec(),
            r.in_unit_interval(),
    {
        self.min(Binary32::one()).max(Binary32::zero())
    }
    /// The whole part of the magnitude, capped at two to the power 31.
    fn whole_part(self) -> (w: u64)
        ensures
            w == if self.whole() >= 0x8000_0000 {
                0x8000_0000
            } else {
                self.whole()
            },
    {
        let magnitude: u32 = self.magnitude_bits();
        let exponent: u32 = magnitude / RADIX_32;
        let fraction: u32 = magnitude % RADIX_32;
        let significand: u64 = (RADIX_32 + fraction) as u64;
        proof {
            lemma2_to64();
            lemma_pow2_pos(149);
            if exponent > 0 {
                lemma_pow2_pos((exponent - 1) as nat);
            }
        }
        let ghost scaled = scaled_magnitude(magnitude as int, RADIX_32 as int);
        let ghost unit = pow2(149) as int;
        if exponent < 127 {
            proof {
                if exponent == 0 {
                    lemma_pow2_strictly_increases(23, 149);
                } else {
                    let p = pow2((exponent - 1) as nat) as int;
                    lemma_pow2_adds(24, (exponent - 1) as nat);
                    if exponent < 126 {
                        lemma_pow2_strictly_increases((23 + exponent) as nat, 149);
                    }
                    assert(significand * p < 0x100_0000 * p) by (nonlinear_arith)
                        requires
                            significand < 0x100_0000,
                            p > 0,
                    ;
                }
                lemma_basic_div(scaled, unit);
            }
            0
        } else if exponent >= 158 {
            proof {
                let p = pow2((exponent - 1) as nat) as int;
                lemma_pow2_adds(149, 31);
                if exponent > 158 {
                    lemma_pow2_strictly_increases(157, (exponent - 1) as nat);
                }
                lemma_pow2_adds(23, 157);
                assert(significand * p >= 0x80_0000 * pow2(157)) by (nonlinear_arith)
                    requires
                        significand >= 0x80_0000,
                        p >= pow2(157),
                ;
                lemma_div_is_ordered(unit * 0x8000_0000, scaled, unit);
                lemma_div_multiples_vanish(0x8000_0000, unit);
            }
            0x8000_0000
        } else if exponent <= 150 {
            let shift: u64 = (150 - exponent) as u64;
            proof {
                let p = pow2((exponent - 1) as nat) as int;
                let d = pow2(shift as nat) as int;
                lemma_pow2_pos(shift as nat);
                lemma_pow2_adds((exponent - 1) as nat, shift as nat);
                lemma_div_multiples_vanish_quotient(p, significand as int, d);
                assert(scaled == p * significand) by (nonlinear_arith)
                    requires
                        scaled == significand * p,
                ;
                lemma_u64_shr_is_div(significand, shift);
                lemma_div_is_ordered(0, significand as int, d);
                assert(significand as int / d <= significand) by (nonlinear_arith)
                    requires
                        significand >= 0,
                        d >= 1,
                ;
            }
            significand >> shift
        } else {
            let shift: u64 = (exponent - 150) as u64;
            proof {
                let k = pow2(shift as nat) as int;
                lemma_pow2_pos(shift as nat);
                lemma_pow2_adds(149, shift as nat);
                if shift < 7 {
                    lemma_pow2_strictly_increases(shift as nat, 7);
                }
                assert(significand * k < 0x100_0000 * 0x80) by (nonlinear_arith)
                    requires
                        0 <= significand < 0x100_0000,
                        0 < k <= 0x80,
                ;
                lemma_u64_shl_is_mul(significand, shift);
                assert(scaled == unit * (significand * k)) by (nonlinear_arith)
                    requires
                        scaled == significand * (unit * k),
                ;
                lemma_div_multiples_vanish(significand * k, unit);
            }
            significand << shift
        }
    }

    /// Cuts the number off toward zero and brings it into the range of a
    /// signed 32-bit integer; a NaN gives 0.
    pub fn to_i32(self) -> (n: i32)
        ensures
            n == self.to_i32_spec(),
    {
        if self.is_nan() {
            return 0;
        }
        let whole: u64 = self.whole_part();
        if self.is_negative() {
            if whole >= 0x8000_0000 {
                i32::MIN
            } else {
                -(whole as i32)
            }
        } else {
            if whole >= 0x8000_0000 {
                i32::MAX
            } else {
                whole as i32
            }
        }
    }

    /// Cuts the number off toward zero and brings it into the range of an
    /// unsigned 8-bit integer; a NaN gives 0.
    pub fn to_u8(self) -> (n: u8)
        ensures
            n == self.to_u8_spec(),
    {
        if self.is_nan() || self.is_negative() {
            return 0;
        }
        let whole: u64 = self.whole_part();
        if whole >= 256 {
            255
        } else {
            whole as u8
        }
    }
}

} // verus!
