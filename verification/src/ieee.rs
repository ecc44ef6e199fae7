//! IEEE 754 binary interchange numbers, held as their bit patterns.
//!
//! A pattern is split into a sign, a biased exponent and a fraction. The order
//! of two numbers is defined over the integers `value * 2^149`, and the
//! executable comparison, which only looks at the patterns, is proved to agree
//! with it.

use vstd::prelude::*;
use vstd::arithmetic::power2::pow2;
use vstd::arithmetic::power2::lemma_pow2_pos;
use vstd::arithmetic::power2::lemma_pow2_strictly_increases;
use vstd::arithmetic::mul::lemma_mul_inequality;
use vstd::arithmetic::mul::lemma_mul_strict_inequality;

verus! {

/// The sign bit of a single-precision pattern.
pub const SIGN_BIT_32: u32 = 0x8000_0000;

/// The weight of the lowest exponent bit of a single-precision pattern.
pub const HIDDEN_BIT_32: u32 = 0x0080_0000;

/// The pattern of positive infinity in single precision.
pub const INFINITY_32: u32 = 0x7F80_0000;

/// A single-precision number (sign, 8 exponent bits, 23 fraction bits).
#[derive(Clone, Copy, Debug, PartialEq, Eq, Structural)]
pub struct Binary32 {
    pub bits: u32,
}

/// A double-precision number (sign, 11 exponent bits, 52 fraction bits).
/// The engine stores and hands on such numbers and never computes with them.
#[derive(Clone, Copy, Debug, PartialEq, Eq, Structural)]
pub struct Binary64 {
    pub bits: u64,
}

/// `|value| * 2^149` of the number whose pattern, without its sign bit, is
/// `magnitude`. For infinity the formula gives a number above every finite one.
pub open spec fn scaled_magnitude_32(magnitude: nat) -> nat {
    let exponent = magnitude / (HIDDEN_BIT_32 as nat);
    let fraction = magnitude % (HIDDEN_BIT_32 as nat);
    if exponent == 0 {
        fraction
    } else {
        (HIDDEN_BIT_32 as nat + fraction) * pow2((exponent - 1) as nat)
    }
}

impl Binary32 {
    /// Whether the sign bit is set.
    pub open spec fn negative(self) -> bool {
        self.bits >= SIGN_BIT_32
    }

    /// The pattern without its sign bit.
    pub open spec fn magnitude(self) -> nat {
        (self.bits % SIGN_BIT_32) as nat
    }

    /// The biased exponent, between 0 and 255.
    pub open spec fn exponent(self) -> nat {
        self.magnitude() / (HIDDEN_BIT_32 as nat)
    }

    /// The 23 fraction bits.
    pub open spec fn fraction(self) -> nat {
        self.magnitude() % (HIDDEN_BIT_32 as nat)
    }

    /// Whether the pattern is not a number.
    pub open spec fn nan(self) -> bool {
        self.exponent() == 255 && self.fraction() != 0
    }

    /// Whether the pattern is an infinity.
    pub open spec fn infinite(self) -> bool {
        self.exponent() == 255 && self.fraction() == 0
    }

    /// `value * 2^149`, an integer for every finite number; an infinity gets
    /// an integer beyond every finite number, on its side of zero.
    pub open spec fn scaled(self) -> int {
        if self.negative() {
            -(scaled_magnitude_32(self.magnitude()) as int)
        } else {
            scaled_magnitude_32(self.magnitude()) as int
        }
    }

    /// The order of IEEE 754: nothing is above or below a NaN, the two zeros
    /// are equal, and otherwise the values decide.
    pub open spec fn gt_spec(self, other: Binary32) -> bool {
        !self.nan() && !other.nan() && self.scaled() > other.scaled()
    }

    /// The number with the given pattern.
    pub fn from_bits(bits: u32) -> (r: Binary32)
        ensures
            r.bits == bits,
    {
        Binary32 { bits }
    }

    /// The pattern of the number.
    pub fn to_bits(&self) -> (r: u32)
        ensures
            r == self.bits,
    {
        self.bits
    }

    /// Whether the pattern is not a number.
    pub fn is_nan(&self) -> (r: bool)
        ensures
            r == self.nan(),
    {
        self.bits % SIGN_BIT_32 > INFINITY_32
    }

    /// Whether `self` is strictly greater than `other`.
    pub fn gt(&self, other: &Binary32) -> (r: bool)
        ensures
            r == self.gt_spec(*other),
    {
        let a: u32 = self.bits % SIGN_BIT_32;
        let b: u32 = other.bits % SIGN_BIT_32;
        if a > INFINITY_32 || b > INFINITY_32 {
            return false;
        }
        proof {
            if a < b {
                lemma_scaled_magnitude_32_order(a as nat, b as nat);
            }
            if b < a {
                lemma_scaled_magnitude_32_order(b as nat, a as nat);
            }
            if 0 < a {
                lemma_scaled_magnitude_32_order(0, a as nat);
            }
            if 0 < b {
                lemma_scaled_magnitude_32_order(0, b as nat);
            }
        }
        if self.bits >= SIGN_BIT_32 {
            other.bits >= SIGN_BIT_32 && a < b
        } else if other.bits >= SIGN_BIT_32 {
            a > 0 || b > 0
        } else {
            a > b
        }
    }
}

impl Binary64 {
    /// The number with the given pattern.
    pub fn from_bits(bits: u64) -> (r: Binary64)
        ensures
            r.bits == bits,
    {
        Binary64 { bits }
    }

    /// The pattern of the number.
    pub fn to_bits(&self) -> (r: u64)
        ensures
            r == self.bits,
    {
        self.bits
    }
}

/// Among patterns without a sign bit, the larger pattern is the larger number.
pub proof fn lemma_scaled_magnitude_32_order(x: nat, y: nat)
    requires
        x < y,
        y < SIGN_BIT_32,
    ensures
        scaled_magnitude_32(x) < scaled_magnitude_32(y),
{
    let h = HIDDEN_BIT_32 as nat;
    let ex = x / h;
    let fx = x % h;
    let ey = y / h;
    let fy = y % h;
    assert(x == ex * h + fx && y == ey * h + fy) by (nonlinear_arith)
        requires
            h == 0x0080_0000,
            ex == x / h,
            fx == x % h,
            ey == y / h,
            fy == y % h,
    ;
    assert(ex <= ey) by (nonlinear_arith)
        requires
            x < y,
            h == 0x0080_0000,
            ex == x / h,
            ey == y / h,
    ;
    if ex == ey {
        assert(fx < fy);
        if ex > 0 {
            let p = pow2((ex - 1) as nat);
            lemma_pow2_pos((ex - 1) as nat);
            lemma_mul_strict_inequality((h + fx) as int, (h + fy) as int, p as int);
        }
    } else {
        let q = pow2((ey - 1) as nat);
        lemma_pow2_pos((ey - 1) as nat);
        lemma_mul_inequality(h as int, (h + fy) as int, q as int);
        assert(h * q <= scaled_magnitude_32(y));
        if ex == 0 {
            assert(q >= 1);
            assert(h * q >= h) by (nonlinear_arith)
                requires
                    q >= 1,
            ;
        } else {
            let p = pow2((ex - 1) as nat);
            lemma_pow2_pos((ex - 1) as nat);
            lemma_mul_strict_inequality((h + fx) as int, (2 * h) as int, p as int);
            assert(2 * h * p == h * (2 * p)) by (nonlinear_arith);
            vstd::arithmetic::power2::lemma_pow2_unfold(ex);
            assert(2 * p == pow2(ex));
            if ex < ey - 1 {
                lemma_pow2_strictly_increases(ex, (ey - 1) as nat);
            }
            assert(pow2(ex) <= q);
            lemma_mul_inequality(pow2(ex) as int, q as int, h as int);
            assert(h * pow2(ex) == pow2(ex) * h) by (nonlinear_arith);
            assert(h * q == q * h) by (nonlinear_arith);
        }
    }
}

} // verus!
